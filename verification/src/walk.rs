//! The object-store walk: from a listing snapshot of the two-level fan-out
//! layout to the sequence of reconstructed object identifiers, with a
//! per-entry diagnostic in place of each malformed entry.
//!
//! The specification functions state exactly which item every entry yields;
//! the executable functions are proved to produce them. A caller that reads
//! the filesystem lazily drives `prefix_byte` and `file_object_id` entry by
//! entry; `walk_listing` processes a whole snapshot at once.

use vstd::prelude::*;

use crate::errors::{LocalRepositoryError, RepoErrorView};
use crate::hexcode::{decode, hex_decoded, hex_error, valid_hex};
use crate::listing::{EntryName, FileEntry, FileStatus, ObjectStoreListing, PrefixContents,
    PrefixEntry};

verus! {

/// One item of the enumeration: a reconstructed object identifier, or the
/// diagnostic produced in its place.
#[derive(Debug, Clone, PartialEq, Eq)]
pub enum WalkItem {
    Id { id: Vec<u8> },
    Failure { error: LocalRepositoryError },
}

/// The mathematical shape of a `WalkItem`.
pub enum WalkItemView {
    Id { id: Seq<u8> },
    Failure { error: RepoErrorView },
}

impl View for WalkItem {
    type V = WalkItemView;

    open spec fn view(&self) -> WalkItemView {
        match self {
            WalkItem::Id { id } => WalkItemView::Id { id: id@ },
            WalkItem::Failure { error } => WalkItemView::Failure { error: error@ },
        }
    }
}

impl DeepView for WalkItem {
    type V = WalkItemView;

    open spec fn deep_view(&self) -> WalkItemView {
        self.view()
    }
}

/// `base` with one more component appended behind a separator, as the walk
/// reports entry paths.
pub open spec fn joined(base: Seq<u8>, name: Seq<u8>) -> Seq<u8> {
    base + seq![47u8] + name
}

/// Append one path component behind a separator.
pub fn join_component(base: &Vec<u8>, name: &Vec<u8>) -> (r: Vec<u8>)
    ensures
        r@ == joined(base@, name@),
{
    let mut r: Vec<u8> = Vec::new();
    let mut i: usize = 0;
    while i < base.len()
        invariant
            i <= base.len(),
            r@ =~= base@.take(i as int),
        decreases base.len() - i,
    {
        r.push(base[i]);
        i = i + 1;
    }
    r.push(47);
    let mut j: usize = 0;
    while j < name.len()
        invariant
            j <= name.len(),
            r@ =~= base@ + seq![47u8] + name@.take(j as int),
        decreases name.len() - j,
    {
        r.push(name[j]);
        j = j + 1;
    }
    proof {
        assert(r@ =~= joined(base@, name@));
    }
    r
}

/// The classification of one top-level entry name: the fan-out prefix byte
/// it denotes, or the diagnostic owed for this branch. A name that is not
/// text cannot be examined; a name not exactly two characters is not a
/// fan-out directory; a two-character name that is not hexadecimal does not
/// decode.
pub open spec fn prefix_outcome(objects_dir: Seq<u8>, name: EntryName) -> Result<
    u8,
    RepoErrorView,
> {
    match name {
        EntryName::NotText { name } => Err(RepoErrorView::OsStringConversion { name: name@ }),
        EntryName::Text { name } => if name@.len() != 2 {
            Err(RepoErrorView::InvalidObjectDBFormat { path: joined(objects_dir, name@) })
        } else if !valid_hex(name@) {
            Err(RepoErrorView::Hex { source: hex_error(name@) })
        } else {
            Ok(hex_decoded(name@)[0])
        },
    }
}

/// The outcome of examining one entry inside a prefix directory: the
/// reconstructed identifier — the prefix byte followed by the decoded
/// suffix — or the diagnostic owed for this entry. A failed metadata query
/// comes first, then an entry that is no regular file, then a name that is
/// not text, then one that is not hexadecimal.
pub open spec fn file_outcome(prefix_dir: Seq<u8>, prefix: u8, f: FileEntry) -> Result<
    Seq<u8>,
    RepoErrorView,
> {
    match f.status {
        FileStatus::Unknown { source } => Err(RepoErrorView::Io { source: source@ }),
        FileStatus::NotFile => Err(RepoErrorView::NotAFile {
            path: joined(prefix_dir, f.name.bytes()),
        }),
        FileStatus::IsFile => match f.name {
            EntryName::NotText { name } => Err(RepoErrorView::OsStringConversion { name: name@ }),
            EntryName::Text { name } => if valid_hex(name@) {
                Ok(seq![prefix] + hex_decoded(name@))
            } else {
                Err(RepoErrorView::Hex { source: hex_error(name@) })
            },
        },
    }
}

/// The item one file entry contributes.
pub open spec fn file_item(prefix_dir: Seq<u8>, prefix: u8, f: FileEntry) -> WalkItemView {
    match file_outcome(prefix_dir, prefix, f) {
        Ok(id) => WalkItemView::Id { id },
        Err(error) => WalkItemView::Failure { error },
    }
}

/// The items the entries of one prefix directory contribute, in listing
/// order.
pub open spec fn file_items(prefix_dir: Seq<u8>, prefix: u8, entries: Seq<FileEntry>) -> Seq<
    WalkItemView,
> {
    entries.map_values(|f: FileEntry| file_item(prefix_dir, prefix, f))
}

/// Every item one top-level entry contributes: a single diagnostic when its
/// name does not denote a fan-out directory or when listing it failed, else
/// one item per entry inside it.
pub open spec fn prefix_items(objects_dir: Seq<u8>, e: PrefixEntry) -> Seq<WalkItemView> {
    match prefix_outcome(objects_dir, e.name) {
        Err(error) => seq![WalkItemView::Failure { error }],
        Ok(prefix) => match e.contents {
            PrefixContents::Unreadable { source } => seq![
                WalkItemView::Failure { error: RepoErrorView::Io { source: source@ } },
            ],
            PrefixContents::Files { entries } => file_items(
                joined(objects_dir, e.name.bytes()),
                prefix,
                entries@,
            ),
        },
    }
}

/// Every item the top-level entries contribute, in listing order: the
/// concatenation of each branch's items, so no branch's diagnostic hides a
/// sibling's.
pub open spec fn walk_items(objects_dir: Seq<u8>, entries: Seq<PrefixEntry>) -> Seq<WalkItemView>
    decreases entries.len(),
{
    if entries.len() == 0 {
        Seq::empty()
    } else {
        walk_items(objects_dir, entries.drop_last()) + prefix_items(objects_dir, entries.last())
    }
}

/// The whole enumeration a listing snapshot yields: exactly one I/O item
/// when the top-level object directory could not be opened, else every
/// branch's items in listing order.
pub open spec fn listing_items(objects_dir: Seq<u8>, l: ObjectStoreListing) -> Seq<WalkItemView> {
    match l {
        ObjectStoreListing::Unreadable { source } => seq![
            WalkItemView::Failure { error: RepoErrorView::Io { source: source@ } },
        ],
        ObjectStoreListing::Prefixes { entries } => walk_items(objects_dir, entries@),
    }
}

/// Copy a byte vector.
pub(crate) fn copy_bytes(v: &Vec<u8>) -> (r: Vec<u8>)
    ensures
        r@ == v@,
{
    let mut r: Vec<u8> = Vec::new();
    let mut i: usize = 0;
    while i < v.len()
        invariant
            i <= v.len(),
            r@ =~= v@.take(i as int),
        decreases v.len() - i,
    {
        r.push(v[i]);
        i = i + 1;
    }
    proof {
        assert(r@ =~= v@);
    }
    r
}

/// Classify one top-level entry name: the fan-out prefix byte it denotes,
/// or the diagnostic owed for this branch.
pub fn prefix_byte(objects_dir: &Vec<u8>, name: &EntryName) -> (r: Result<
    u8,
    LocalRepositoryError,
>)
    ensures
        match r {
            Ok(p) => prefix_outcome(objects_dir@, *name) == Ok::<u8, RepoErrorView>(p),
            Err(e) => prefix_outcome(objects_dir@, *name) == Err::<u8, RepoErrorView>(e@),
        },
{
    match name {
        EntryName::NotText { name } => Err(LocalRepositoryError::OsStringConversion {
            name: copy_bytes(name),
        }),
        EntryName::Text { name } => {
            if name.len() != 2 {
                Err(LocalRepositoryError::InvalidObjectDBFormat {
                    path: join_component(objects_dir, name),
                })
            } else {
                match decode(name) {
                    Err(e) => Err(LocalRepositoryError::Hex { source: e }),
                    Ok(b) => Ok(b[0]),
                }
            }
        },
    }
}

/// Examine one entry inside a prefix directory: the reconstructed
/// identifier, or the diagnostic owed for this entry.
pub fn file_object_id(prefix_dir: &Vec<u8>, prefix: u8, entry: &FileEntry) -> (r: Result<
    Vec<u8>,
    LocalRepositoryError,
>)
    ensures
        match r {
            Ok(id) => file_outcome(prefix_dir@, prefix, *entry) == Ok::<Seq<u8>, RepoErrorView>(
                id@,
            ),
            Err(e) => file_outcome(prefix_dir@, prefix, *entry) == Err::<Seq<u8>, RepoErrorView>(
                e@,
            ),
        },
{
    match &entry.status {
        FileStatus::Unknown { source } => Err(LocalRepositoryError::Io { source: source.clone() }),
        FileStatus::NotFile => Err(LocalRepositoryError::NotAFile {
            path: join_component(prefix_dir, entry.name.as_bytes()),
        }),
        FileStatus::IsFile => match &entry.name {
            EntryName::NotText { name } => Err(LocalRepositoryError::OsStringConversion {
                name: copy_bytes(name),
            }),
            EntryName::Text { name } => match decode(name) {
                Err(e) => Err(LocalRepositoryError::Hex { source: e }),
                Ok(suffix) => {
                    let mut id: Vec<u8> = Vec::new();
                    id.push(prefix);
                    let mut i: usize = 0;
                    while i < suffix.len()
                        invariant
                            i <= suffix.len(),
                            id@ =~= seq![prefix] + suffix@.take(i as int),
                        decreases suffix.len() - i,
                    {
                        id.push(suffix[i]);
                        i = i + 1;
                    }
                    proof {
                        assert(id@ =~= seq![prefix] + suffix@);
                    }
                    Ok(id)
                },
            },
        },
    }
}

/// Walk a whole listing snapshot of the object store and produce every item
/// it yields, in order: each reconstructed identifier, and each per-entry
/// diagnostic in place of the identifier its entry would have produced.
pub fn walk_listing(objects_dir: &Vec<u8>, listing: &ObjectStoreListing) -> (r: Vec<WalkItem>)
    ensures
        r.deep_view() == listing_items(objects_dir@, *listing),
{
    match listing {
        ObjectStoreListing::Unreadable { source } => {
            let mut out: Vec<WalkItem> = Vec::new();
            out.push(WalkItem::Failure {
                error: LocalRepositoryError::Io { source: source.clone() },
            });
            proof {
                assert(out.deep_view() =~= listing_items(objects_dir@, *listing));
            }
            out
        },
        ObjectStoreListing::Prefixes { entries } => {
            let mut out: Vec<WalkItem> = Vec::new();
            let mut i: usize = 0;
            proof {
                assert(out.deep_view() =~= walk_items(objects_dir@, entries@.take(0)));
            }
            while i < entries.len()
                invariant
                    i <= entries.len(),
                    out.deep_view() == walk_items(objects_dir@, entries@.take(i as int)),
                decreases entries.len() - i,
            {
                let ghost prev = out.deep_view();
                let e = &entries[i];
                match prefix_byte(objects_dir, &e.name) {
                    Err(err) => {
                        out.push(WalkItem::Failure { error: err });
                        proof {
                            assert(out.deep_view() =~= prev + prefix_items(objects_dir@, *e));
                        }
                    },
                    Ok(p) => match &e.contents {
                        PrefixContents::Unreadable { source } => {
                            out.push(WalkItem::Failure {
                                error: LocalRepositoryError::Io { source: source.clone() },
                            });
                            proof {
                                assert(out.deep_view() =~= prev + prefix_items(objects_dir@, *e));
                            }
                        },
                        PrefixContents::Files { entries: files } => {
                            let prefix_dir = join_component(objects_dir, e.name.as_bytes());
                            let mut j: usize = 0;
                            while j < files.len()
                                invariant
                                    j <= files.len(),
                                    prefix_dir@ == joined(objects_dir@, e.name.bytes()),
                                    out.deep_view() == prev + file_items(
                                        prefix_dir@,
                                        p,
                                        files@.take(j as int),
                                    ),
                                decreases files.len() - j,
                            {
                                let ghost inner_prev = out.deep_view();
                                match file_object_id(&prefix_dir, p, &files[j]) {
                                    Ok(id) => out.push(WalkItem::Id { id }),
                                    Err(err) => out.push(WalkItem::Failure { error: err }),
                                }
                                proof {
                                    assert(out.deep_view() =~= inner_prev + seq![
                                        file_item(prefix_dir@, p, files@[j as int]),
                                    ]);
                                    assert(prev + file_items(
                                        prefix_dir@,
                                        p,
                                        files@.take(j + 1),
                                    ) =~= inner_prev + seq![
                                        file_item(prefix_dir@, p, files@[j as int]),
                                    ]);
                                }
                                j = j + 1;
                            }
                            proof {
                                assert(files@.take(files@.len() as int) =~= files@);
                                assert(out.deep_view() == prev + prefix_items(objects_dir@, *e));
                            }
                        },
                    },
                }
                proof {
                    assert(entries@.take(i + 1).drop_last() =~= entries@.take(i as int));
                    assert(entries@.take(i + 1).last() == entries@[i as int]);
                    assert(walk_items(objects_dir@, entries@.take(i + 1)) == walk_items(
                        objects_dir@,
                        entries@.take(i as int),
                    ) + prefix_items(objects_dir@, entries@[i as int]));
                }
                i = i + 1;
            }
            proof {
                assert(entries@.take(entries@.len() as int) =~= entries@);
            }
            out
        },
    }
}

} // verus!
