//! The closed set of failure kinds shared by repository resolution and the
//! object-store walk, each carrying the context needed for diagnosis.

use vstd::prelude::*;

verus! {

/// Why a name failed to decode as hexadecimal: a byte that is not a hex
/// digit (reported at the first such position), or an odd number of digits.
#[derive(Debug, Clone, Copy, PartialEq, Eq, Structural)]
pub enum HexDecodeError {
    InvalidHexCharacter { byte: u8, index: usize },
    OddLength,
}

/// Everything that can go wrong while resolving a path to a repository or
/// while walking its object store. Paths and entry names are carried as the
/// raw bytes the filesystem reported; I/O causes as their message text.
#[derive(Debug, Clone, PartialEq, Eq)]
pub enum LocalRepositoryError {
    /// A filesystem read or listing failed.
    Io { source: String },
    /// Decoded bytes could not be converted to text.
    Utf8 { source: String },
    /// A filesystem entry name is not representable as text.
    OsStringConversion { name: Vec<u8> },
    /// An entry name is not valid hexadecimal.
    Hex { source: HexDecodeError },
    /// The path handed to resolution does not exist.
    PathDoesNotExist { path: Vec<u8> },
    /// The path exists but holds neither a `.git` directory nor a bare marker.
    RepositoryNotFound { path: Vec<u8> },
    /// An entry inside a prefix directory is not a regular file.
    NotAFile { path: Vec<u8> },
    /// A fan-out prefix directory name is not exactly two characters.
    InvalidObjectDBFormat { path: Vec<u8> },
}

/// The mathematical shape of a `LocalRepositoryError`: the same variants over
/// byte and character sequences.
pub enum RepoErrorView {
    Io { source: Seq<char> },
    Utf8 { source: Seq<char> },
    OsStringConversion { name: Seq<u8> },
    Hex { source: HexDecodeError },
    PathDoesNotExist { path: Seq<u8> },
    RepositoryNotFound { path: Seq<u8> },
    NotAFile { path: Seq<u8> },
    InvalidObjectDBFormat { path: Seq<u8> },
}

impl View for LocalRepositoryError {
    type V = RepoErrorView;

    open spec fn view(&self) -> RepoErrorView {
        match self {
            LocalRepositoryError::Io { source } => RepoErrorView::Io { source: source@ },
            LocalRepositoryError::Utf8 { source } => RepoErrorView::Utf8 { source: source@ },
            LocalRepositoryError::OsStringConversion { name } => RepoErrorView::OsStringConversion {
                name: name@,
            },
            LocalRepositoryError::Hex { source } => RepoErrorView::Hex { source: *source },
            LocalRepositoryError::PathDoesNotExist { path } => RepoErrorView::PathDoesNotExist {
                path: path@,
            },
            LocalRepositoryError::RepositoryNotFound { path } => RepoErrorView::RepositoryNotFound {
                path: path@,
            },
            LocalRepositoryError::NotAFile { path } => RepoErrorView::NotAFile { path: path@ },
            LocalRepositoryError::InvalidObjectDBFormat { path } => RepoErrorView::InvalidObjectDBFormat {
                path: path@,
            },
        }
    }
}

impl DeepView for LocalRepositoryError {
    type V = RepoErrorView;

    open spec fn deep_view(&self) -> RepoErrorView {
        self.view()
    }
}

} // verus!
