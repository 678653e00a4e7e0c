//! The order in which a pane shows its entries.

use crate::entry::{entries_view, FileEntry, FileEntryView};
use vstd::prelude::*;
use vstd::utf8::encode_utf8;

verus! {

/// By what a pane orders its entries.
#[derive(Clone, Copy, Debug, PartialEq, Eq, Structural)]
pub enum FileSorting {
    /// By name, in the order of the bytes of the names.
    Name,
    /// By time of the last change, the newest first.
    ModifyTime,
    /// By size, the largest first.
    Size,
}

/// Whether `a` is no greater than `b` from the index `k` on, where the two
/// agree before `k`: at the first index where they differ `a` holds the smaller
/// byte, or `a` ends before they differ.
pub open spec fn bytes_le_from(a: Seq<u8>, b: Seq<u8>, k: int) -> bool
    decreases a.len() - k,
{
    if k < 0 || k >= a.len() {
        true
    } else if k >= b.len() {
        false
    } else if a[k] != b[k] {
        a[k] < b[k]
    } else {
        bytes_le_from(a, b, k + 1)
    }
}

/// The order of byte strings as a dictionary has it.
pub open spec fn bytes_le(a: Seq<u8>, b: Seq<u8>) -> bool {
    bytes_le_from(a, b, 0)
}

/// Whether `a` may stand before `b` in the given order.
pub open spec fn comes_before(a: FileEntryView, b: FileEntryView, order: FileSorting) -> bool {
    match order {
        FileSorting::Name => bytes_le(encode_utf8(a.name), encode_utf8(b.name)),
        FileSorting::ModifyTime => a.modified_time >= b.modified_time,
        FileSorting::Size => a.size >= b.size,
    }
}

/// Every entry may stand before all that follow it.
pub open spec fn sorted(s: Seq<FileEntryView>, order: FileSorting) -> bool {
    forall|i: int, j: int| 0 <= i < j < s.len() ==> comes_before(#[trigger] s[i], #[trigger] s[j], order)
}

/// Of two byte strings one is no greater than the other.
pub proof fn lemma_bytes_le_total(a: Seq<u8>, b: Seq<u8>, k: int)
    requires
        0 <= k,
    ensures
        bytes_le_from(a, b, k) || bytes_le_from(b, a, k),
    decreases a.len() - k,
{
    if k < a.len() && k < b.len() && a[k] == b[k] {
        lemma_bytes_le_total(a, b, k + 1);
    }
}

/// The order of byte strings carries over.
pub proof fn lemma_bytes_le_transitive(a: Seq<u8>, b: Seq<u8>, c: Seq<u8>, k: int)
    requires
        0 <= k,
        bytes_le_from(a, b, k),
        bytes_le_from(b, c, k),
    ensures
        bytes_le_from(a, c, k),
    decreases a.len() - k,
{
    if k < a.len() && a[k] == b[k] && b[k] == c[k] {
        lemma_bytes_le_transitive(a, b, c, k + 1);
    }
}

/// Of two entries one may stand before the other.
pub proof fn lemma_comes_before_total(a: FileEntryView, b: FileEntryView, order: FileSorting)
    ensures
        comes_before(a, b, order) || comes_before(b, a, order),
{
    lemma_bytes_le_total(encode_utf8(a.name), encode_utf8(b.name), 0);
}

/// Standing before carries over.
pub proof fn lemma_comes_before_transitive(
    a: FileEntryView,
    b: FileEntryView,
    c: FileEntryView,
    order: FileSorting,
)
    requires
        comes_before(a, b, order),
        comes_before(b, c, order),
    ensures
        comes_before(a, c, order),
{
    if order is Name {
        lemma_bytes_le_transitive(
            encode_utf8(a.name),
            encode_utf8(b.name),
            encode_utf8(c.name),
            0,
        );
    }
}

/// Compares two byte strings.
fn bytes_precede(a: &[u8], b: &[u8]) -> (le: bool)
    ensures
        le == bytes_le(a@, b@),
{
    let mut k: usize = 0;
    while k < a.len()
        invariant
            k <= a.len(),
            bytes_le(a@, b@) == bytes_le_from(a@, b@, k as int),
        decreases a.len() - k,
    {
        if k >= b.len() {
            return false;
        }
        if a[k] != b[k] {
            return a[k] < b[k];
        }
        k += 1;
    }
    true
}

/// Whether `a` may stand before `b` in the given order.
pub fn precedes(a: &FileEntry, b: &FileEntry, order: FileSorting) -> (before: bool)
    ensures
        before == comes_before(a@, b@, order),
{
    match order {
        FileSorting::Name => bytes_precede(a.name.as_str().as_bytes(), b.name.as_str().as_bytes()),
        FileSorting::ModifyTime => a.modified_time >= b.modified_time,
        FileSorting::Size => a.size >= b.size,
    }
}

/// The place of `e` among the sorted entries `s`, looked for from `k` on: before
/// the first entry that may not stand before `e`, or at the end.
pub open spec fn slot_from(s: Seq<FileEntryView>, e: FileEntryView, order: FileSorting, k: int) -> int
    decreases s.len() - k,
{
    if k < 0 || k >= s.len() {
        s.len() as int
    } else if !comes_before(s[k], e, order) {
        k
    } else {
        slot_from(s, e, order, k + 1)
    }
}

/// The sorted entries `s` with `e` put in its place: behind every entry that
/// may stand before it.
pub open spec fn inserted(s: Seq<FileEntryView>, e: FileEntryView, order: FileSorting) -> Seq<
    FileEntryView,
> {
    s.insert(slot_from(s, e, order, 0), e)
}

/// A listing put in order, each entry put in its place in turn. Entries that may
/// stand either way keep the order in which the listing had them.
pub open spec fn arranged(listing: Seq<FileEntryView>, order: FileSorting) -> Seq<FileEntryView>
    decreases listing.len(),
{
    if listing.len() == 0 {
        listing
    } else {
        inserted(arranged(listing.drop_last(), order), listing.last(), order)
    }
}

/// What `slot_from` finds.
pub proof fn lemma_slot_from(s: Seq<FileEntryView>, e: FileEntryView, order: FileSorting, k: int)
    requires
        0 <= k <= s.len(),
    ensures
        k <= slot_from(s, e, order, k) <= s.len(),
        forall|j: int| k <= j < slot_from(s, e, order, k) ==> comes_before(#[trigger] s[j], e, order),
        slot_from(s, e, order, k) < s.len() ==> !comes_before(s[slot_from(s, e, order, k)], e, order),
    decreases s.len() - k,
{
    if k < s.len() && comes_before(s[k], e, order) {
        lemma_slot_from(s, e, order, k + 1);
    }
}

/// The slot is the only index behind entries that may stand before `e` and
/// before one that may not.
pub proof fn lemma_slot_is(
    s: Seq<FileEntryView>,
    e: FileEntryView,
    order: FileSorting,
    k: int,
    p: int,
)
    requires
        0 <= k <= p <= s.len(),
        forall|j: int| k <= j < p ==> comes_before(#[trigger] s[j], e, order),
        p < s.len() ==> !comes_before(s[p], e, order),
    ensures
        slot_from(s, e, order, k) == p,
    decreases p - k,
{
    if k < p {
        lemma_slot_is(s, e, order, k + 1, p);
    }
}

/// Putting an entry in its place keeps the order and adds just that entry.
pub proof fn lemma_inserted(s: Seq<FileEntryView>, e: FileEntryView, order: FileSorting)
    requires
        sorted(s, order),
    ensures
        sorted(inserted(s, e, order), order),
        inserted(s, e, order).to_multiset() == s.to_multiset().insert(e),
        inserted(s, e, order).len() == s.len() + 1,
{
    broadcast use vstd::seq_lib::group_to_multiset_ensures;

    let p = slot_from(s, e, order, 0);
    lemma_slot_from(s, e, order, 0);
    let now = inserted(s, e, order);
    assert forall|i: int, j: int| 0 <= i < j < now.len() implies comes_before(
        #[trigger] now[i],
        #[trigger] now[j],
        order,
    ) by {
        if j < p {
            assert(now[i] == s[i] && now[j] == s[j]);
        } else if j == p {
            assert(now[i] == s[i]);
        } else if i < p {
            assert(now[i] == s[i] && now[j] == s[j - 1]);
        } else {
            // `s[p]` may not stand before `e`, so `e` may stand before it and
            // before all that follow it.
            assert(now[j] == s[j - 1]);
            lemma_comes_before_total(s[p], e, order);
            if i == p {
                if j - 1 > p {
                    lemma_comes_before_transitive(e, s[p], s[j - 1], order);
                }
            } else {
                assert(now[i] == s[i - 1]);
            }
        }
    }
    assert(now[p] == e);
    assert(now.remove(p) =~= s);
    assert(now.to_multiset().remove(e) =~= s.to_multiset());
    assert(now.contains(e));
    assert(now.to_multiset().count(e) > 0);
    assert(now.to_multiset() =~= s.to_multiset().insert(e));
}

/// A listing put in order is in order, and holds exactly the entries of the
/// listing, each as often as the listing holds it.
pub proof fn theorem_arranged_is_the_listing_in_order(
    listing: Seq<FileEntryView>,
    order: FileSorting,
)
    ensures
        sorted(arranged(listing, order), order),
        arranged(listing, order).to_multiset() == listing.to_multiset(),
        arranged(listing, order).len() == listing.len(),
    decreases listing.len(),
{
    broadcast use vstd::seq_lib::group_to_multiset_ensures;

    if listing.len() > 0 {
        theorem_arranged_is_the_listing_in_order(listing.drop_last(), order);
        lemma_inserted(arranged(listing.drop_last(), order), listing.last(), order);
        assert(listing.drop_last().push(listing.last()) =~= listing);
    }
}

/// Puts a listing in order.
pub fn sort_entries(listing: Vec<FileEntry>, order: FileSorting) -> (out: Vec<FileEntry>)
    ensures
        entries_view(out@) == arranged(entries_view(listing@), order),
{
    let ghost all = entries_view(listing@);
    let mut out: Vec<FileEntry> = Vec::new();
    assert(entries_view(out@) =~= arranged(all.take(0), order));
    for entry in it: listing
        invariant
            entries_view(it.seq()) == all,
            entries_view(out@) == arranged(all.take(it.index() as int), order),
    {
        let ghost was = entries_view(out@);
        let mut p: usize = 0;
        while p < out.len() && precedes(&out[p], &entry, order)
            invariant
                p <= out.len(),
                was == entries_view(out@),
                forall|k: int| 0 <= k < p ==> comes_before(#[trigger] was[k], entry@, order),
            decreases out.len() - p,
        {
            p += 1;
        }
        proof {
            lemma_slot_is(was, entry@, order, 0, p as int);
            assert(all.take(it.index() + 1).drop_last() =~= all.take(it.index() as int));
            assert(all.take(it.index() + 1).last() == entry@);
        }
        out.insert(p, entry);
        assert(entries_view(out@) =~= was.insert(p as int, entry@));
    }
    assert(all.take(all.len() as int) =~= all);
    out
}

} // verus!
