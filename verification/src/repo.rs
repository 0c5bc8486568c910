//! Resolution of a filesystem path to a repository, and the enumeration of
//! its object store.
//!
//! The caller performs the filesystem probes — does the path exist, what did
//! canonicalizing it give, does `<canonical>/.git` exist, does the bare
//! marker exist — and hands their outcomes in as plain values; the
//! classification of those outcomes is verified here.

use vstd::prelude::*;

use crate::errors::{LocalRepositoryError, RepoErrorView};
use crate::listing::ObjectStoreListing;
use crate::walk::{copy_bytes, joined, listing_items, walk_listing, WalkItem};

verus! {

/// A resolved repository location: a working directory whose metadata lives
/// in a `.git` subdirectory, or a bare directory that is itself the
/// metadata store. The carried path is the canonicalized one.
#[derive(Debug, Clone, PartialEq, Eq)]
pub enum LocalRepositoryPath {
    Full(Vec<u8>),
    Bare(Vec<u8>),
}

/// The mathematical shape of a `LocalRepositoryPath`.
pub enum RepoPathView {
    Full(Seq<u8>),
    Bare(Seq<u8>),
}

impl View for LocalRepositoryPath {
    type V = RepoPathView;

    open spec fn view(&self) -> RepoPathView {
        match self {
            LocalRepositoryPath::Full(path) => RepoPathView::Full(path@),
            LocalRepositoryPath::Bare(path) => RepoPathView::Bare(path@),
        }
    }
}

/// The outcome of canonicalizing a path, as the caller reports it: the
/// canonical bytes, or the text of the failure.
pub open spec fn canonical_view(c: Result<Vec<u8>, String>) -> Result<Seq<u8>, Seq<char>> {
    match c {
        Ok(path) => Ok(path@),
        Err(source) => Err(source@),
    }
}

/// What classifying a path returns, as a function of the three filesystem
/// facts: a canonicalization failure surfaces as an I/O error; a path whose
/// canonical form holds a `.git` subdirectory is a worktree; else one with a
/// bare marker is bare; else there is no repository at the path.
pub open spec fn classify(
    canonical: Result<Seq<u8>, Seq<char>>,
    has_git_dir: bool,
    has_bare_marker: bool,
) -> Result<RepoPathView, RepoErrorView> {
    match canonical {
        Err(source) => Err(RepoErrorView::Io { source }),
        Ok(path) => if has_git_dir {
            Ok(RepoPathView::Full(path))
        } else if has_bare_marker {
            Ok(RepoPathView::Bare(path))
        } else {
            Err(RepoErrorView::RepositoryNotFound { path })
        },
    }
}

impl LocalRepositoryPath {
    /// Classify a path from the outcomes of the filesystem probes:
    /// `canonical` is what canonicalizing gave, `has_git_dir` whether
    /// `<canonical>/.git` exists, `has_bare_marker` whether the bare
    /// repository marker exists.
    pub fn new(
        canonical: Result<Vec<u8>, String>,
        has_git_dir: bool,
        has_bare_marker: bool,
    ) -> (r: Result<Self, LocalRepositoryError>)
        ensures
            match r {
                Ok(p) => classify(canonical_view(canonical), has_git_dir, has_bare_marker)
                    == Ok::<RepoPathView, RepoErrorView>(p@),
                Err(e) => classify(canonical_view(canonical), has_git_dir, has_bare_marker)
                    == Err::<RepoPathView, RepoErrorView>(e@),
            },
            r is Ok <==> canonical is Ok && (has_git_dir || has_bare_marker),
    {
        match canonical {
            Err(source) => Err(LocalRepositoryError::Io { source }),
            Ok(path) => {
                if has_git_dir {
                    Ok(LocalRepositoryPath::Full(path))
                } else if has_bare_marker {
                    Ok(LocalRepositoryPath::Bare(path))
                } else {
                    Err(LocalRepositoryError::RepositoryNotFound { path })
                }
            },
        }
    }
}

/// The name of the metadata subdirectory of a worktree: `.git`.
pub open spec fn git_dir_name() -> Seq<u8> {
    seq![46u8, 103u8, 105u8, 116u8]
}

/// The name of the object-store directory inside the repository root:
/// `objects`.
pub open spec fn objects_dir_name() -> Seq<u8> {
    seq![111u8, 98u8, 106u8, 101u8, 99u8, 116u8, 115u8]
}

/// The repository root every later operation uses: the canonical path
/// itself for a bare repository, `<canonical>/.git` for a worktree.
pub open spec fn root_of(p: RepoPathView) -> Seq<u8> {
    match p {
        RepoPathView::Bare(path) => path,
        RepoPathView::Full(base) => joined(base, git_dir_name()),
    }
}

/// The path of the top-level object directory, `<root>/objects`.
pub open spec fn objects_dir_of(p: RepoPathView) -> Seq<u8> {
    joined(root_of(p), objects_dir_name())
}

/// A repository on disk.
pub struct LocalRepository {
    path: LocalRepositoryPath,
}

impl View for LocalRepository {
    type V = RepoPathView;

    closed spec fn view(&self) -> RepoPathView {
        self.path@
    }
}

impl LocalRepository {
    /// Resolve a filesystem path to a repository. The caller reports the
    /// filesystem facts: whether the path exists, what canonicalizing it
    /// gave, and whether `<canonical>/.git` and the bare marker exist. A
    /// path that does not exist is rejected outright, whatever the other
    /// probes would have said — canonicalization plays no part in that
    /// refusal.
    pub fn new(
        path: Vec<u8>,
        exists: bool,
        canonical: Result<Vec<u8>, String>,
        has_git_dir: bool,
        has_bare_marker: bool,
    ) -> (r: Result<Self, LocalRepositoryError>)
        ensures
            match r {
                Ok(repo) => exists && classify(
                    canonical_view(canonical),
                    has_git_dir,
                    has_bare_marker,
                ) == Ok::<RepoPathView, RepoErrorView>(repo@),
                Err(e) => if !exists {
                    e@ == (RepoErrorView::PathDoesNotExist { path: path@ })
                } else {
                    classify(canonical_view(canonical), has_git_dir, has_bare_marker)
                        == Err::<RepoPathView, RepoErrorView>(e@)
                },
            },
            r is Ok <==> exists && canonical is Ok && (has_git_dir || has_bare_marker),
    {
        if !exists {
            return Err(LocalRepositoryError::PathDoesNotExist { path });
        }
        match LocalRepositoryPath::new(canonical, has_git_dir, has_bare_marker) {
            Ok(p) => Ok(LocalRepository { path: p }),
            Err(e) => Err(e),
        }
    }

    /// The repository root used by all subsequent operations: the canonical
    /// path itself for a bare repository, `<canonical>/.git` for a worktree.
    pub fn repo_path(&self) -> (r: Vec<u8>)
        ensures
            r@ == root_of(self@),
    {
        match &self.path {
            LocalRepositoryPath::Bare(rv) => copy_bytes(rv),
            LocalRepositoryPath::Full(base) => {
                let mut r = copy_bytes(base);
                r.push(47);
                r.push(46);
                r.push(103);
                r.push(105);
                r.push(116);
                proof {
                    assert(r@ =~= joined(base@, git_dir_name()));
                }
                r
            },
        }
    }

    /// The path of the top-level object directory, `<root>/objects` — the
    /// directory whose listing the walk consumes.
    pub fn objects_path(&self) -> (r: Vec<u8>)
        ensures
            r@ == objects_dir_of(self@),
    {
        let mut r = self.repo_path();
        r.push(47);
        r.push(111);
        r.push(98);
        r.push(106);
        r.push(101);
        r.push(99);
        r.push(116);
        r.push(115);
        proof {
            assert(r@ =~= objects_dir_of(self@));
        }
        r
    }

    /// Enumerate the object store from a listing snapshot of
    /// `<root>/objects`: every reconstructed object identifier and every
    /// per-entry diagnostic, in listing order.
    pub fn objects(&self, listing: &ObjectStoreListing) -> (r: Vec<WalkItem>)
        ensures
            r.deep_view() == listing_items(objects_dir_of(self@), *listing),
    {
        let dir = self.objects_path();
        walk_listing(&dir, listing)
    }
}

} // verus!
