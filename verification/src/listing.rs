//! A snapshot of what the filesystem reported while listing the object
//! store: entry names as raw bytes, whether each entry is a regular file,
//! and where a listing or metadata query failed, the failure's message.
//!
//! The caller that reads the filesystem fills these values in; the walk is
//! then a verified function of them.

use vstd::prelude::*;

verus! {

/// The name of one directory entry, as the raw bytes the filesystem
/// reported. `Text` is a name representable as text (valid UTF-8);
/// `NotText` one that is not.
#[derive(Debug, Clone, PartialEq, Eq)]
pub enum EntryName {
    Text { name: Vec<u8> },
    NotText { name: Vec<u8> },
}

impl EntryName {
    /// The bytes of the name, whichever form it has.
    pub open spec fn bytes(&self) -> Seq<u8> {
        match self {
            EntryName::Text { name } => name@,
            EntryName::NotText { name } => name@,
        }
    }

    /// The bytes of the name, whichever form it has.
    pub fn as_bytes(&self) -> (r: &Vec<u8>)
        ensures
            r@ == self.bytes(),
    {
        match self {
            EntryName::Text { name } => name,
            EntryName::NotText { name } => name,
        }
    }
}

/// What querying an entry's metadata said of it: a regular file, something
/// else, or the query itself failed.
#[derive(Debug, Clone, PartialEq, Eq)]
pub enum FileStatus {
    IsFile,
    NotFile,
    Unknown { source: String },
}

/// One entry of a fan-out prefix directory.
#[derive(Debug, Clone, PartialEq, Eq)]
pub struct FileEntry {
    pub name: EntryName,
    pub status: FileStatus,
}

/// What listing one fan-out prefix directory gave: its entries, or the
/// failure that listing it produced.
#[derive(Debug, Clone, PartialEq, Eq)]
pub enum PrefixContents {
    Unreadable { source: String },
    Files { entries: Vec<FileEntry> },
}

/// One entry of the top-level object directory.
#[derive(Debug, Clone, PartialEq, Eq)]
pub struct PrefixEntry {
    pub name: EntryName,
    pub contents: PrefixContents,
}

/// What listing the top-level object directory gave: one entry per fan-out
/// prefix directory, or the failure that opening it produced.
#[derive(Debug, Clone, PartialEq, Eq)]
pub enum ObjectStoreListing {
    Unreadable { source: String },
    Prefixes { entries: Vec<PrefixEntry> },
}

} // verus!
