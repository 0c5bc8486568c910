use std::collections::HashSet;

use dgit::{
    EntryName, FileEntry, FileStatus, HexDecodeError, LocalRepository, LocalRepositoryError,
    ObjectStoreListing, PrefixContents, PrefixEntry, WalkItem,
};

fn bytes(s: &str) -> Vec<u8> {
    s.as_bytes().to_vec()
}

fn text(s: &str) -> EntryName {
    EntryName::Text { name: bytes(s) }
}

fn file(name: &str) -> FileEntry {
    FileEntry { name: text(name), status: FileStatus::IsFile }
}

fn prefix(name: &str, files: Vec<FileEntry>) -> PrefixEntry {
    PrefixEntry { name: text(name), contents: PrefixContents::Files { entries: files } }
}

fn bare_repo() -> LocalRepository {
    LocalRepository::new(bytes("/r"), true, Ok(bytes("/r")), false, true).unwrap()
}

fn ids_of(items: &[WalkItem]) -> HashSet<Vec<u8>> {
    items
        .iter()
        .filter_map(|it| match it {
            WalkItem::Id { id } => Some(id.clone()),
            WalkItem::Failure { .. } => None,
        })
        .collect()
}

#[test]
fn end_to_end_single_object() {
    let repo = bare_repo();
    let listing = ObjectStoreListing::Prefixes {
        entries: vec![prefix("ab", vec![file("cdef01")])],
    };
    let items = repo.objects(&listing);
    assert_eq!(items, vec![WalkItem::Id { id: vec![0xab, 0xcd, 0xef, 0x01] }]);
}

#[test]
fn empty_store_yields_nothing() {
    let repo = bare_repo();
    let listing = ObjectStoreListing::Prefixes { entries: Vec::new() };
    assert_eq!(repo.objects(&listing), Vec::new());
}

#[test]
fn unreadable_store_yields_exactly_one_io_item() {
    let repo = bare_repo();
    let listing = ObjectStoreListing::Unreadable { source: String::from("permission denied") };
    let items = repo.objects(&listing);
    assert_eq!(
        items,
        vec![WalkItem::Failure {
            error: LocalRepositoryError::Io { source: String::from("permission denied") }
        }]
    );
}

#[test]
fn wrong_length_prefix_names_fail_without_hiding_siblings() {
    let repo = bare_repo();
    let listing = ObjectStoreListing::Prefixes {
        entries: vec![
            prefix("a", vec![file("00")]),
            prefix("ab", vec![file("cd")]),
            prefix("abc", vec![file("00")]),
        ],
    };
    let items = repo.objects(&listing);
    assert_eq!(
        items,
        vec![
            WalkItem::Failure {
                error: LocalRepositoryError::InvalidObjectDBFormat { path: bytes("/r/objects/a") }
            },
            WalkItem::Id { id: vec![0xab, 0xcd] },
            WalkItem::Failure {
                error: LocalRepositoryError::InvalidObjectDBFormat {
                    path: bytes("/r/objects/abc")
                }
            },
        ]
    );
}

#[test]
fn non_hex_names_fail_without_hiding_siblings() {
    let repo = bare_repo();
    let listing = ObjectStoreListing::Prefixes {
        entries: vec![
            prefix("zz", vec![file("00")]),
            prefix("ab", vec![file("zz"), file("cd")]),
        ],
    };
    let items = repo.objects(&listing);
    assert_eq!(
        items,
        vec![
            WalkItem::Failure {
                error: LocalRepositoryError::Hex {
                    source: HexDecodeError::InvalidHexCharacter { byte: b'z', index: 0 }
                }
            },
            WalkItem::Failure {
                error: LocalRepositoryError::Hex {
                    source: HexDecodeError::InvalidHexCharacter { byte: b'z', index: 0 }
                }
            },
            WalkItem::Id { id: vec![0xab, 0xcd] },
        ]
    );
}

#[test]
fn directory_in_place_of_file_fails_for_that_entry_only() {
    let repo = bare_repo();
    let listing = ObjectStoreListing::Prefixes {
        entries: vec![prefix(
            "ab",
            vec![
                FileEntry { name: text("cdef"), status: FileStatus::NotFile },
                file("0102"),
            ],
        )],
    };
    let items = repo.objects(&listing);
    assert_eq!(
        items,
        vec![
            WalkItem::Failure {
                error: LocalRepositoryError::NotAFile { path: bytes("/r/objects/ab/cdef") }
            },
            WalkItem::Id { id: vec![0xab, 0x01, 0x02] },
        ]
    );
}

#[test]
fn unreadable_prefix_directory_fails_for_that_branch_only() {
    let repo = bare_repo();
    let listing = ObjectStoreListing::Prefixes {
        entries: vec![
            PrefixEntry {
                name: text("ab"),
                contents: PrefixContents::Unreadable { source: String::from("interrupted") },
            },
            prefix("cd", vec![file("ef")]),
        ],
    };
    let items = repo.objects(&listing);
    assert_eq!(
        items,
        vec![
            WalkItem::Failure {
                error: LocalRepositoryError::Io { source: String::from("interrupted") }
            },
            WalkItem::Id { id: vec![0xcd, 0xef] },
        ]
    );
}

#[test]
fn metadata_failure_yields_io_for_that_entry_only() {
    let repo = bare_repo();
    let listing = ObjectStoreListing::Prefixes {
        entries: vec![prefix(
            "ab",
            vec![
                FileEntry {
                    name: text("cd"),
                    status: FileStatus::Unknown { source: String::from("stale handle") },
                },
                file("ef"),
            ],
        )],
    };
    let items = repo.objects(&listing);
    assert_eq!(
        items,
        vec![
            WalkItem::Failure {
                error: LocalRepositoryError::Io { source: String::from("stale handle") }
            },
            WalkItem::Id { id: vec![0xab, 0xef] },
        ]
    );
}

#[test]
fn names_that_are_not_text_yield_conversion_failures() {
    let repo = bare_repo();
    let raw = vec![0xff, 0xfe];
    let listing = ObjectStoreListing::Prefixes {
        entries: vec![
            PrefixEntry {
                name: EntryName::NotText { name: raw.clone() },
                contents: PrefixContents::Files { entries: vec![file("00")] },
            },
            prefix(
                "ab",
                vec![FileEntry {
                    name: EntryName::NotText { name: raw.clone() },
                    status: FileStatus::IsFile,
                }],
            ),
        ],
    };
    let items = repo.objects(&listing);
    assert_eq!(
        items,
        vec![
            WalkItem::Failure {
                error: LocalRepositoryError::OsStringConversion { name: raw.clone() }
            },
            WalkItem::Failure {
                error: LocalRepositoryError::OsStringConversion { name: raw }
            },
        ]
    );
}

#[test]
fn success_set_is_independent_of_listing_order() {
    let repo = bare_repo();
    let one = ObjectStoreListing::Prefixes {
        entries: vec![
            prefix("ab", vec![file("01"), file("02")]),
            prefix("cd", vec![file("03")]),
        ],
    };
    let other = ObjectStoreListing::Prefixes {
        entries: vec![
            prefix("cd", vec![file("03")]),
            prefix("ab", vec![file("02"), file("01")]),
        ],
    };
    let expected: HashSet<Vec<u8>> =
        [vec![0xab, 0x01], vec![0xab, 0x02], vec![0xcd, 0x03]].into_iter().collect();
    assert_eq!(ids_of(&repo.objects(&one)), expected);
    assert_eq!(ids_of(&repo.objects(&other)), expected);
}

#[test]
fn suffixes_of_any_even_length_are_accepted() {
    let repo = bare_repo();
    let listing = ObjectStoreListing::Prefixes {
        entries: vec![prefix("ff", vec![file(""), file("a1b2c3d4e5")])],
    };
    let items = repo.objects(&listing);
    assert_eq!(
        items,
        vec![
            WalkItem::Id { id: vec![0xff] },
            WalkItem::Id { id: vec![0xff, 0xa1, 0xb2, 0xc3, 0xd4, 0xe5] },
        ]
    );
}

#[test]
fn odd_length_suffix_yields_hex_error() {
    let repo = bare_repo();
    let listing = ObjectStoreListing::Prefixes {
        entries: vec![prefix("ab", vec![file("abc")])],
    };
    let items = repo.objects(&listing);
    assert_eq!(
        items,
        vec![WalkItem::Failure {
            error: LocalRepositoryError::Hex { source: HexDecodeError::OddLength }
        }]
    );
}

#[test]
fn prefix_byte_classifies_directly() {
    let objects_dir = bytes("/r/objects");
    assert_eq!(dgit::walk::prefix_byte(&objects_dir, &text("ab")), Ok(0xab));
    assert_eq!(
        dgit::walk::prefix_byte(&objects_dir, &text("a")),
        Err(LocalRepositoryError::InvalidObjectDBFormat { path: bytes("/r/objects/a") })
    );
    assert_eq!(
        dgit::walk::prefix_byte(&objects_dir, &text("zz")),
        Err(LocalRepositoryError::Hex {
            source: HexDecodeError::InvalidHexCharacter { byte: b'z', index: 0 }
        })
    );
}

#[test]
fn file_object_id_reconstructs_directly() {
    let prefix_dir = bytes("/r/objects/ab");
    assert_eq!(
        dgit::walk::file_object_id(&prefix_dir, 0xab, &file("cdef01")),
        Ok(vec![0xab, 0xcd, 0xef, 0x01])
    );
    assert_eq!(
        dgit::walk::file_object_id(
            &prefix_dir,
            0xab,
            &FileEntry { name: text("cd"), status: FileStatus::NotFile }
        ),
        Err(LocalRepositoryError::NotAFile { path: bytes("/r/objects/ab/cd") })
    );
}
