//! Enumeration of the loose-object database of a version-control repository.
//!
//! The library resolves a filesystem path to a repository (a worktree with a
//! `.git` metadata directory, or a bare directory) and walks the two-level
//! fan-out layout of its object store, reconstructing the raw byte identifier
//! of every loose object and reporting a per-entry diagnostic wherever an
//! entry is malformed. All filesystem facts reach the library as plain
//! values (entry names, existence checks, listing snapshots), so every
//! decision the walk makes is verified; the caller performs the reads and
//! drives the walk lazily through the per-entry functions.

pub mod errors;
pub mod hexcode;
pub mod laws;
pub mod listing;
pub mod repo;
pub mod walk;

pub use errors::{HexDecodeError, LocalRepositoryError, RepoErrorView};
pub use listing::{EntryName, FileEntry, FileStatus, ObjectStoreListing, PrefixContents, PrefixEntry};
pub use repo::{LocalRepository, LocalRepositoryPath, RepoPathView};
pub use walk::{WalkItem, WalkItemView};
