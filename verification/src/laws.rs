//! What the walk guarantees, stated and proved over the specification
//! functions of `walk`: the exact success set of a well-formed store, its
//! independence from listing order, and the isolation of each branch's
//! diagnostics from its siblings.

use vstd::prelude::*;

use crate::errors::RepoErrorView;
use crate::hexcode::{hex_decoded, hex_error, valid_hex};
use crate::listing::{FileEntry, PrefixContents, PrefixEntry};
use crate::walk::{file_item, file_items, joined, prefix_items, prefix_outcome, walk_items,
    WalkItemView};

verus! {

/// The file entries a prefix entry carries (none when its listing failed).
pub open spec fn prefix_files(e: PrefixEntry) -> Seq<FileEntry> {
    match e.contents {
        PrefixContents::Files { entries } => entries@,
        PrefixContents::Unreadable { .. } => Seq::empty(),
    }
}

/// A file entry as a well-formed store has them: a regular file whose name
/// is text and decodes as hexadecimal.
pub open spec fn well_formed_file(f: FileEntry) -> bool {
    &&& f.status is IsFile
    &&& f.name is Text
    &&& valid_hex(f.name.bytes())
}

/// A prefix entry as a well-formed store has them: a two-character
/// hexadecimal text name, a listable directory, and well-formed files.
pub open spec fn well_formed_prefix(e: PrefixEntry) -> bool {
    &&& e.name is Text
    &&& e.name.bytes().len() == 2
    &&& valid_hex(e.name.bytes())
    &&& e.contents is Files
    &&& forall|j: int| 0 <= j < prefix_files(e).len() ==> well_formed_file(prefix_files(e)[j])
}

/// Every entry of the store is well formed.
pub open spec fn well_formed_store(entries: Seq<PrefixEntry>) -> bool {
    forall|i: int| 0 <= i < entries.len() ==> well_formed_prefix(entries[i])
}

/// The identifier one file of one prefix directory reconstructs: the decoded
/// prefix byte followed by the decoded suffix bytes.
pub open spec fn decoded_id(e: PrefixEntry, f: FileEntry) -> Seq<u8> {
    hex_decoded(e.name.bytes()) + hex_decoded(f.name.bytes())
}

/// The set of identifiers the items carry as successes.
pub open spec fn ok_ids(items: Seq<WalkItemView>) -> Set<Seq<u8>> {
    Set::new(
        |id: Seq<u8>|
            exists|k: int| 0 <= k < items.len() && items[k] == (WalkItemView::Id { id }),
    )
}

/// The set of identifiers a store describes: one per file of every prefix
/// directory.
pub open spec fn expected_ids(entries: Seq<PrefixEntry>) -> Set<Seq<u8>> {
    Set::new(
        |id: Seq<u8>|
            exists|i: int, j: int|
                0 <= i < entries.len() && 0 <= j < prefix_files(entries[i]).len() && id
                    == decoded_id(entries[i], prefix_files(entries[i])[j]),
    )
}

/// A well-formed prefix directory contributes exactly one success per file,
/// carrying the reconstructed identifier, and no diagnostics.
pub proof fn lemma_well_formed_prefix_items(objects_dir: Seq<u8>, e: PrefixEntry)
    requires
        well_formed_prefix(e),
    ensures
        prefix_items(objects_dir, e).len() == prefix_files(e).len(),
        forall|j: int|
            0 <= j < prefix_files(e).len() ==> prefix_items(objects_dir, e)[j]
                == (WalkItemView::Id { id: decoded_id(e, prefix_files(e)[j]) }),
{
    let name = e.name.bytes();
    let prefix = hex_decoded(name)[0];
    assert(prefix_outcome(objects_dir, e.name) == Ok::<u8, RepoErrorView>(prefix));
    let dir = joined(objects_dir, name);
    let files = prefix_files(e);
    assert(prefix_items(objects_dir, e) == file_items(dir, prefix, files));
    assert forall|j: int| 0 <= j < files.len() implies prefix_items(objects_dir, e)[j]
        == (WalkItemView::Id { id: decoded_id(e, files[j]) }) by {
        let f = files[j];
        assert(well_formed_file(f));
        let suffix = f.name.bytes();
        assert(file_item(dir, prefix, f) == (WalkItemView::Id { id: seq![prefix] + hex_decoded(
            suffix,
        ) }));
        assert(seq![prefix] + hex_decoded(suffix) =~= decoded_id(e, f));
    }
}

/// Which identifiers a well-formed store yields: exactly the decoded prefix
/// byte followed by the decoded suffix bytes, for every file of every
/// prefix directory — compared as sets, so however the filesystem ordered
/// the listing.
pub proof fn lemma_well_formed_success_set(objects_dir: Seq<u8>, entries: Seq<PrefixEntry>)
    requires
        well_formed_store(entries),
    ensures
        ok_ids(walk_items(objects_dir, entries)) == expected_ids(entries),
    decreases entries.len(),
{
    if entries.len() == 0 {
        assert forall|id: Seq<u8>| !ok_ids(walk_items(objects_dir, entries)).contains(id) by {}
        assert(ok_ids(walk_items(objects_dir, entries)) =~= expected_ids(entries));
    } else {
        let dl = entries.drop_last();
        let e = entries.last();
        assert(well_formed_store(dl));
        lemma_well_formed_success_set(objects_dir, dl);
        lemma_well_formed_prefix_items(objects_dir, e);
        let items = walk_items(objects_dir, entries);
        let a = walk_items(objects_dir, dl);
        let b = prefix_items(objects_dir, e);
        assert(items == a + b);
        assert forall|id: Seq<u8>| ok_ids(items).contains(id) implies expected_ids(
            entries,
        ).contains(id) by {
            let k = choose|k: int| 0 <= k < items.len() && items[k] == (WalkItemView::Id { id });
            if k < a.len() {
                assert(a[k] == items[k]);
                assert(ok_ids(a).contains(id));
                assert(expected_ids(dl).contains(id));
                let (i, j) = choose|i: int, j: int|
                    0 <= i < dl.len() && 0 <= j < prefix_files(dl[i]).len() && id == decoded_id(
                        dl[i],
                        prefix_files(dl[i])[j],
                    );
                assert(dl[i] == entries[i]);
                assert(0 <= i < entries.len() && 0 <= j < prefix_files(entries[i]).len() && id
                    == decoded_id(entries[i], prefix_files(entries[i])[j]));
            } else {
                let j = k - a.len();
                assert(b[j] == items[k]);
                assert(b[j] == (WalkItemView::Id { id: decoded_id(e, prefix_files(e)[j]) }));
                let i = entries.len() - 1;
                assert(entries[i] == e);
                assert(0 <= i < entries.len() && 0 <= j < prefix_files(entries[i]).len() && id
                    == decoded_id(entries[i], prefix_files(entries[i])[j]));
            }
        }
        assert forall|id: Seq<u8>| expected_ids(entries).contains(id) implies ok_ids(
            items,
        ).contains(id) by {
            let (i, j) = choose|i: int, j: int|
                0 <= i < entries.len() && 0 <= j < prefix_files(entries[i]).len() && id
                    == decoded_id(entries[i], prefix_files(entries[i])[j]);
            if i < entries.len() - 1 {
                assert(dl[i] == entries[i]);
                assert(expected_ids(dl).contains(id));
                assert(ok_ids(a).contains(id));
                let k = choose|k: int| 0 <= k < a.len() && a[k] == (WalkItemView::Id { id });
                assert(items[k] == a[k]);
                assert(0 <= k < items.len() && items[k] == (WalkItemView::Id { id }));
            } else {
                assert(entries[i] == e);
                let k = a.len() + j;
                assert(items[k] == b[j]);
                assert(items[k] == (WalkItemView::Id { id }));
                assert(0 <= k < items.len());
            }
        }
        assert(ok_ids(items) =~= expected_ids(entries));
    }
}

/// A well-formed store yields successes only: no entry of its walk is a
/// diagnostic.
pub proof fn lemma_well_formed_no_failures(objects_dir: Seq<u8>, entries: Seq<PrefixEntry>)
    requires
        well_formed_store(entries),
    ensures
        forall|k: int|
            0 <= k < walk_items(objects_dir, entries).len() ==> walk_items(
                objects_dir,
                entries,
            )[k] is Id,
    decreases entries.len(),
{
    if entries.len() > 0 {
        let dl = entries.drop_last();
        let e = entries.last();
        assert(well_formed_store(dl));
        lemma_well_formed_no_failures(objects_dir, dl);
        lemma_well_formed_prefix_items(objects_dir, e);
        let a = walk_items(objects_dir, dl);
        let b = prefix_items(objects_dir, e);
        assert forall|k: int| 0 <= k < walk_items(objects_dir, entries).len() implies walk_items(
            objects_dir,
            entries,
        )[k] is Id by {
            if k < a.len() {
                assert(walk_items(objects_dir, entries)[k] == a[k]);
            } else {
                assert(walk_items(objects_dir, entries)[k] == b[k - a.len()]);
            }
        }
    }
}

/// Two stores that list the same prefix entries, in whatever order, yield
/// the same success set.
pub proof fn lemma_success_set_order_independent(
    objects_dir: Seq<u8>,
    a: Seq<PrefixEntry>,
    b: Seq<PrefixEntry>,
)
    requires
        well_formed_store(a),
        a.to_multiset() == b.to_multiset(),
    ensures
        ok_ids(walk_items(objects_dir, a)) == ok_ids(walk_items(objects_dir, b)),
{
    a.to_multiset_ensures();
    b.to_multiset_ensures();
    assert forall|i: int| 0 <= i < b.len() implies well_formed_prefix(b[i]) by {
        assert(b.contains(b[i]));
        assert(b.to_multiset().count(b[i]) > 0);
        assert(a.to_multiset().count(b[i]) > 0);
        assert(a.contains(b[i]));
        let k = choose|k: int| 0 <= k < a.len() && a[k] == b[i];
        assert(well_formed_prefix(a[k]));
    }
    lemma_well_formed_success_set(objects_dir, a);
    lemma_well_formed_success_set(objects_dir, b);
    assert forall|id: Seq<u8>| expected_ids(a).contains(id) implies expected_ids(b).contains(
        id,
    ) by {
        let (i, j) = choose|i: int, j: int|
            0 <= i < a.len() && 0 <= j < prefix_files(a[i]).len() && id == decoded_id(
                a[i],
                prefix_files(a[i])[j],
            );
        assert(a.contains(a[i]));
        assert(a.to_multiset().count(a[i]) > 0);
        assert(b.to_multiset().count(a[i]) > 0);
        assert(b.contains(a[i]));
        let k = choose|k: int| 0 <= k < b.len() && b[k] == a[i];
        assert(0 <= k < b.len() && 0 <= j < prefix_files(b[k]).len() && id == decoded_id(
            b[k],
            prefix_files(b[k])[j],
        ));
    }
    assert forall|id: Seq<u8>| expected_ids(b).contains(id) implies expected_ids(a).contains(
        id,
    ) by {
        let (i, j) = choose|i: int, j: int|
            0 <= i < b.len() && 0 <= j < prefix_files(b[i]).len() && id == decoded_id(
                b[i],
                prefix_files(b[i])[j],
            );
        assert(b.contains(b[i]));
        assert(b.to_multiset().count(b[i]) > 0);
        assert(a.to_multiset().count(b[i]) > 0);
        assert(a.contains(b[i]));
        let k = choose|k: int| 0 <= k < a.len() && a[k] == b[i];
        assert(0 <= k < a.len() && 0 <= j < prefix_files(a[k]).len() && id == decoded_id(
            a[k],
            prefix_files(a[k])[j],
        ));
    }
    assert(expected_ids(a) =~= expected_ids(b));
}

/// The walk splits around any branch into the items before it, its own
/// items, and the items after it: a branch's diagnostic never hides a
/// sibling entry.
pub proof fn lemma_branch_isolation(objects_dir: Seq<u8>, entries: Seq<PrefixEntry>, i: int)
    requires
        0 <= i < entries.len(),
    ensures
        walk_items(objects_dir, entries) == walk_items(objects_dir, entries.take(i))
            + prefix_items(objects_dir, entries[i]) + walk_items(
            objects_dir,
            entries.skip(i + 1),
        ),
    decreases entries.len(),
{
    let dl = entries.drop_last();
    if i == entries.len() - 1 {
        assert(dl =~= entries.take(i));
        assert(entries.skip(i + 1) =~= Seq::<PrefixEntry>::empty());
        assert(walk_items(objects_dir, entries.take(i)) + prefix_items(objects_dir, entries[i])
            + walk_items(objects_dir, entries.skip(i + 1)) =~= walk_items(objects_dir, dl)
            + prefix_items(objects_dir, entries.last()));
    } else {
        lemma_branch_isolation(objects_dir, dl, i);
        assert(dl.take(i) =~= entries.take(i));
        assert(dl[i] == entries[i]);
        let tail = entries.skip(i + 1);
        assert(tail.len() > 0);
        assert(tail.drop_last() =~= dl.skip(i + 1));
        assert(tail.last() == entries.last());
        assert(walk_items(objects_dir, tail) == walk_items(objects_dir, dl.skip(i + 1))
            + prefix_items(objects_dir, entries.last()));
        assert(walk_items(objects_dir, entries.take(i)) + prefix_items(objects_dir, entries[i])
            + walk_items(objects_dir, tail) =~= (walk_items(objects_dir, entries.take(i))
            + prefix_items(objects_dir, dl[i]) + walk_items(objects_dir, dl.skip(i + 1)))
            + prefix_items(objects_dir, entries.last()));
    }
}

/// A prefix directory name that is not exactly two characters yields the
/// format diagnostic, carrying the branch's path, and nothing else from
/// that branch.
pub proof fn lemma_prefix_wrong_length(objects_dir: Seq<u8>, e: PrefixEntry)
    requires
        e.name is Text,
        e.name.bytes().len() != 2,
    ensures
        prefix_items(objects_dir, e) == seq![
            WalkItemView::Failure {
                error: RepoErrorView::InvalidObjectDBFormat {
                    path: joined(objects_dir, e.name.bytes()),
                },
            },
        ],
{
}

/// A two-character prefix directory name that is not hexadecimal yields the
/// hex diagnostic, and nothing else from that branch.
pub proof fn lemma_prefix_non_hex(objects_dir: Seq<u8>, e: PrefixEntry)
    requires
        e.name is Text,
        e.name.bytes().len() == 2,
        !valid_hex(e.name.bytes()),
    ensures
        prefix_items(objects_dir, e) == seq![
            WalkItemView::Failure {
                error: RepoErrorView::Hex { source: hex_error(e.name.bytes()) },
            },
        ],
{
}

/// A file entry whose name is not hexadecimal yields the hex diagnostic for
/// that entry alone.
pub proof fn lemma_file_non_hex(prefix_dir: Seq<u8>, prefix: u8, f: FileEntry)
    requires
        f.status is IsFile,
        f.name is Text,
        !valid_hex(f.name.bytes()),
    ensures
        file_item(prefix_dir, prefix, f) == (WalkItemView::Failure {
            error: RepoErrorView::Hex { source: hex_error(f.name.bytes()) },
        }),
{
}

/// An entry inside a prefix directory that is not a regular file yields
/// `NotAFile`, carrying the entry's path, for that entry alone.
pub proof fn lemma_not_a_file(prefix_dir: Seq<u8>, prefix: u8, f: FileEntry)
    requires
        f.status is NotFile,
    ensures
        file_item(prefix_dir, prefix, f) == (WalkItemView::Failure {
            error: RepoErrorView::NotAFile { path: joined(prefix_dir, f.name.bytes()) },
        }),
{
}

} // verus!
