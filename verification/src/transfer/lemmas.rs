//! Facts about the sums and the order of a transfer queue.

use crate::entry::FileEntryView;
use crate::transfer::model::{
    first_conflict_from, first_open_from, ordered, settle_all, total, weigh, Decision, Direction,
    EntryStatus,
    Measure, Outcome, QueueEntryView, TransferQueueView,
};
use vstd::prelude::*;

verus! {

/// A sum grows by what the new last entry weighs.
pub proof fn lemma_total_push(s: Seq<QueueEntryView>, e: QueueEntryView, m: Measure)
    ensures
        total(s.push(e), m) == total(s, m) + weigh(m, e),
{
    assert(s.push(e).drop_last() =~= s);
}

/// Replacing one entry changes a sum by the difference of the two weights.
pub proof fn lemma_total_update(s: Seq<QueueEntryView>, i: int, e: QueueEntryView, m: Measure)
    requires
        0 <= i < s.len(),
    ensures
        total(s.update(i, e), m) + weigh(m, s[i]) == total(s, m) + weigh(m, e),
        weigh(m, s[i]) <= total(s, m),
    decreases s.len(),
{
    if i == s.len() - 1 {
        assert(s.update(i, e).drop_last() =~= s.drop_last());
    } else {
        assert(s.update(i, e).drop_last() =~= s.drop_last().update(i, e));
        lemma_total_update(s.drop_last(), i, e, m);
    }
}

/// A sum is at most the length times a bound on every weight.
pub proof fn lemma_total_bound(s: Seq<QueueEntryView>, m: Measure, bound: nat)
    requires
        forall|i: int| 0 <= i < s.len() ==> weigh(m, #[trigger] s[i]) <= bound,
    ensures
        total(s, m) <= s.len() * bound,
    decreases s.len(),
{
    if s.len() > 0 {
        lemma_total_bound(s.drop_last(), m, bound);
        assert((s.len() - 1) * bound + bound == s.len() * bound) by (nonlinear_arith);
    }
}

/// A sum over weights that are pointwise smaller is smaller.
pub proof fn lemma_total_le(s: Seq<QueueEntryView>, m1: Measure, m2: Measure)
    requires
        forall|i: int| 0 <= i < s.len() ==> weigh(m1, #[trigger] s[i]) <= weigh(m2, s[i]),
    ensures
        total(s, m1) <= total(s, m2),
    decreases s.len(),
{
    if s.len() > 0 {
        lemma_total_le(s.drop_last(), m1, m2);
    }
}

/// Sums over weights that agree pointwise agree.
pub proof fn lemma_total_eq(s: Seq<QueueEntryView>, m1: Measure, m2: Measure)
    requires
        forall|i: int| 0 <= i < s.len() ==> weigh(m1, #[trigger] s[i]) == weigh(m2, s[i]),
    ensures
        total(s, m1) == total(s, m2),
    decreases s.len(),
{
    if s.len() > 0 {
        lemma_total_eq(s.drop_last(), m1, m2);
    }
}

/// What `first_open_from` finds: everything between `k` and the result is
/// finished, and the result itself is not.
pub proof fn lemma_first_open_from(s: Seq<QueueEntryView>, k: int)
    requires
        0 <= k <= s.len(),
    ensures
        k <= first_open_from(s, k) <= s.len(),
        forall|j: int| k <= j < first_open_from(s, k) ==> (#[trigger] s[j]).status.terminal(),
        first_open_from(s, k) < s.len() ==> !s[first_open_from(s, k)].status.terminal(),
    decreases s.len() - k,
{
    if k < s.len() && s[k].status.terminal() {
        lemma_first_open_from(s, k + 1);
    }
}

/// The first open entry is the only index with finished entries before it and
/// an unfinished entry at it.
pub proof fn lemma_first_open_is(s: Seq<QueueEntryView>, k: int, i: int)
    requires
        0 <= k <= i <= s.len(),
        forall|j: int| k <= j < i ==> (#[trigger] s[j]).status.terminal(),
        i < s.len() ==> !s[i].status.terminal(),
    ensures
        first_open_from(s, k) == i,
    decreases i - k,
{
    if k < i {
        lemma_first_open_is(s, k + 1, i);
    }
}

/// What `first_conflict_from` finds.
pub proof fn lemma_first_conflict_from(s: Seq<QueueEntryView>, k: int)
    requires
        0 <= k <= s.len(),
    ensures
        k <= first_conflict_from(s, k) <= s.len(),
        forall|j: int| k <= j < first_conflict_from(s, k) ==> !((#[trigger] s[j]).status is Conflict),
        first_conflict_from(s, k) < s.len() ==> s[first_conflict_from(s, k)].status is Conflict,
    decreases s.len() - k,
{
    if k < s.len() && !(s[k].status is Conflict) {
        lemma_first_conflict_from(s, k + 1);
    }
}

/// The first conflict is the only index with no conflict before it and one at it.
pub proof fn lemma_first_conflict_is(s: Seq<QueueEntryView>, k: int, i: int)
    requires
        0 <= k <= i <= s.len(),
        forall|j: int| k <= j < i ==> !((#[trigger] s[j]).status is Conflict),
        i < s.len() ==> s[i].status is Conflict,
    ensures
        first_conflict_from(s, k) == i,
    decreases i - k,
{
    if k < i {
        lemma_first_conflict_is(s, k + 1, i);
    }
}

/// In a well-formed queue the entry in flight is the first open one.
pub proof fn lemma_in_flight_is_active(q: TransferQueueView, i: int)
    requires
        q.wf(),
        0 <= i < q.entries.len(),
        q.entries[i].status is InProgress,
    ensures
        q.active() == Some(i),
{
    lemma_first_open_from(q.entries, 0);
    let f = q.first_open();
    if f < i {
        assert(!q.entries[f].status.terminal());
        assert(q.entries[i].status.waiting());
    }
}

/// In a well-formed queue without an entry in flight, no entry is in progress.
pub proof fn lemma_idle_has_none_in_flight(q: TransferQueueView)
    requires
        q.wf(),
        q.active() is None,
    ensures
        forall|i: int| 0 <= i < q.entries.len() ==> !((#[trigger] q.entries[i]).status is InProgress),
{
    assert forall|i: int| 0 <= i < q.entries.len() implies !((#[trigger] q.entries[i]).status is InProgress) by {
        if q.entries[i].status is InProgress {
            lemma_in_flight_is_active(q, i);
        }
    }
}

/// A queue without an entry in progress has none in flight.
pub proof fn lemma_none_in_flight_is_idle(q: TransferQueueView)
    requires
        forall|i: int| 0 <= i < q.entries.len() ==> !((#[trigger] q.entries[i]).status is InProgress),
    ensures
        q.active() is None,
{
    lemma_first_open_from(q.entries, 0);
}

/// Two well-formed queues with the same entries in progress have the same
/// entry in flight.
pub proof fn lemma_active_same(q: TransferQueueView, r: TransferQueueView)
    requires
        q.wf(),
        r.wf(),
        q.entries.len() <= r.entries.len(),
        forall|i: int|
            0 <= i < q.entries.len() ==> ((#[trigger] q.entries[i]).status is InProgress) == (
            r.entries[i].status is InProgress),
        forall|i: int|
            q.entries.len() <= i < r.entries.len() ==> !((#[trigger] r.entries[i]).status is InProgress),
    ensures
        q.active() == r.active(),
{
    lemma_first_open_from(q.entries, 0);
    lemma_first_open_from(r.entries, 0);
    match q.active() {
        Some(i) => {
            assert(q.entries[i].status is InProgress);
            lemma_in_flight_is_active(r, i);
        },
        None => {
            lemma_idle_has_none_in_flight(q);
            if let Some(k) = r.active() {
                assert(r.entries[k].status is InProgress);
                if k < q.entries.len() {
                    assert(q.entries[k].status is InProgress);
                }
            }
        },
    }
}

/// Behind the entry in flight every entry waits.
pub proof fn lemma_behind_active_waits(q: TransferQueueView)
    requires
        q.wf(),
        q.active() is Some,
    ensures
        forall|j: int| q.active()->0 < j < q.entries.len() ==> (#[trigger] q.entries[j]).status.waiting(),
{
    lemma_first_open_from(q.entries, 0);
    let a = q.active()->0;
    assert forall|j: int| a < j < q.entries.len() implies (#[trigger] q.entries[j]).status.waiting() by {
        assert(!q.entries[a].status.terminal());
    }
}

/// Appending a selection keeps a queue well-formed.
pub proof fn lemma_enqueue_wf(
    q: TransferQueueView,
    selection: Seq<FileEntryView>,
    direction: Direction,
    dest_dir: Seq<Seq<char>>,
    existing: Seq<FileEntryView>,
)
    requires
        q.wf(),
    ensures
        q.enqueue(selection, direction, dest_dir, existing).wf(),
{
    let r = q.enqueue(selection, direction, dest_dir, existing);
    let n = q.entries.len() as int;
    assert forall|i: int, j: int|
        #![trigger r.entries[i], r.entries[j]]
        0 <= i < j < r.entries.len() && !r.entries[i].status.terminal() implies r.entries[j].status.waiting() by {
        if j < n {
            assert(r.entries[i] == q.entries[i]);
            assert(r.entries[j] == q.entries[j]);
        }
    }
    assert forall|i: int| 0 <= i < r.entries.len() implies (#[trigger] r.entries[i]).consistent() by {
        if i < n {
            assert(r.entries[i] == q.entries[i]);
        }
    }
}

/// Answering every conflict alike keeps a queue well-formed.
pub proof fn lemma_settle_all_wf(q: TransferQueueView, status: EntryStatus)
    requires
        q.wf(),
        status is Pending || status is Skipped,
    ensures
        q.with_entries(settle_all(q.entries, status)).wf(),
{
    let r = q.with_entries(settle_all(q.entries, status));
    assert forall|i: int, j: int|
        #![trigger r.entries[i], r.entries[j]]
        0 <= i < j < r.entries.len() && !r.entries[i].status.terminal() implies r.entries[j].status.waiting() by {
        assert(!q.entries[i].status.terminal());
        assert(q.entries[j].status.waiting());
    }
    assert forall|i: int| 0 <= i < r.entries.len() implies (#[trigger] r.entries[i]).consistent() by {
        assert(q.entries[i].consistent());
    }
}

/// Stopping a queue keeps it well-formed.
pub proof fn lemma_abort_wf(q: TransferQueueView)
    requires
        q.wf(),
    ensures
        q.abort().wf(),
{
    lemma_settle_all_wf(q, EntryStatus::Skipped);
    assert(q.abort().entries == q.with_entries(settle_all(q.entries, EntryStatus::Skipped)).entries);
}

/// Replacing an entry keeps the order where the new entry is finished or the
/// old one was not, and where the new entry waits or takes the place of the
/// first open one.
pub proof fn lemma_update_ordered(s: Seq<QueueEntryView>, i: int, e: QueueEntryView)
    requires
        ordered(s),
        0 <= i < s.len(),
        e.status.terminal() || !s[i].status.terminal(),
        e.status.waiting() || i == first_open_from(s, 0),
    ensures
        ordered(s.update(i, e)),
{
    let r = s.update(i, e);
    lemma_first_open_from(s, 0);
    assert forall|a: int, b: int|
        #![trigger r[a], r[b]]
        0 <= a < b < r.len() && !r[a].status.terminal() implies r[b].status.waiting() by {
        if a == i {
            // the old entry was not finished either, so all behind it waited
            assert(!s[i].status.terminal());
            assert(s[b].status.waiting());
        } else if b == i {
            // an unfinished entry stands before `i`, so `i` is not the first
            assert(!s[a].status.terminal());
        } else {
            assert(s[b].status.waiting());
        }
    }
}

/// The user's answer to a conflict keeps a queue well-formed.
pub proof fn lemma_resolve_wf(q: TransferQueueView, decision: Decision)
    requires
        q.wf(),
    ensures
        q.resolve(decision).wf(),
{
    let i = q.first_conflict();
    lemma_first_conflict_from(q.entries, 0);
    match decision {
        Decision::ReplaceThis => {
            if i < q.entries.len() {
                lemma_update_ordered(q.entries, i, q.entries[i].with_status(EntryStatus::Pending));
            }
        },
        Decision::SkipThis => {
            if i < q.entries.len() {
                lemma_update_ordered(q.entries, i, q.entries[i].with_status(EntryStatus::Skipped));
            }
        },
        Decision::ReplaceAll => {
            lemma_settle_all_wf(q, EntryStatus::Pending);
        },
        Decision::SkipAll => {
            lemma_settle_all_wf(q, EntryStatus::Skipped);
        },
        Decision::Abort => {
            lemma_abort_wf(q);
        },
    }
}

/// The executor's step keeps a queue well-formed.
pub proof fn lemma_start_wf(q: TransferQueueView, now: i64)
    requires
        q.wf(),
    ensures
        q.start(now).wf(),
{
    let i = q.first_open();
    lemma_first_open_from(q.entries, 0);
    if i < q.entries.len() {
        lemma_update_ordered(q.entries, i, q.entries[i].with_status(EntryStatus::InProgress));
    }
}

/// A progress report keeps a queue well-formed.
pub proof fn lemma_progress_wf(q: TransferQueueView, written: u64)
    requires
        q.wf(),
    ensures
        q.progress(written).wf(),
{
    lemma_first_open_from(q.entries, 0);
    if let Some(i) = q.active() {
        lemma_update_ordered(q.entries, i, q.entries[i].advanced(written));
    }
}

/// Closing the entry in flight keeps a queue well-formed.
pub proof fn lemma_finish_wf(q: TransferQueueView, outcome: Outcome)
    requires
        q.wf(),
    ensures
        q.finish(outcome).wf(),
{
    lemma_first_open_from(q.entries, 0);
    if let Some(i) = q.active() {
        match outcome {
            Outcome::Completed(bytes) => {
                lemma_update_ordered(q.entries, i, q.entries[i].completed(bytes));
            },
            Outcome::Failed(reason) => {
                lemma_update_ordered(
                    q.entries,
                    i,
                    q.entries[i].with_status(EntryStatus::Failed(reason)),
                );
            },
        }
    }
}

/// Expanding the directory in flight keeps a queue well-formed.
pub proof fn lemma_expand_wf(q: TransferQueueView, children: Seq<FileEntryView>)
    requires
        q.wf(),
    ensures
        q.expand(children).wf(),
{
    lemma_first_open_from(q.entries, 0);
    if let Some(i) = q.active() {
        if q.entries[i].kind is Directory {
            let e = q.entries[i];
            lemma_update_ordered(q.entries, i, e.completed(0));
            let mid = q.with_entries(q.entries.update(i, e.completed(0)));
            lemma_enqueue_wf(mid, children, e.direction, e.dest_path, Seq::empty());
        }
    }
}

/// In a well-formed queue the bytes moved never exceed the bytes expected, nor
/// the entries copied the entries counted.
pub proof fn lemma_done_within_total(q: TransferQueueView)
    requires
        q.wf(),
    ensures
        q.bytes_done() <= q.bytes_total(),
        q.file_done() <= q.file_total(),
{
    assert forall|i: int| 0 <= i < q.entries.len() implies weigh(
        Measure::Moved,
        #[trigger] q.entries[i],
    ) <= weigh(Measure::Expected, q.entries[i]) by {
        assert(q.entries[i].consistent());
    }
    lemma_total_le(q.entries, Measure::Moved, Measure::Expected);
    lemma_total_le(q.entries, Measure::Finished, Measure::Counted);
}

/// Once every entry of a well-formed queue is finished, the bytes moved are the
/// bytes expected and the entries copied are the entries counted.
pub proof fn lemma_totals_reached(q: TransferQueueView)
    requires
        q.wf(),
        q.complete(),
    ensures
        q.bytes_done() == q.bytes_total(),
        q.file_done() == q.file_total(),
{
    assert forall|i: int| 0 <= i < q.entries.len() implies weigh(
        Measure::Moved,
        #[trigger] q.entries[i],
    ) == weigh(Measure::Expected, q.entries[i]) by {
        assert(q.entries[i].consistent());
        assert(q.entries[i].status.terminal());
    }
    assert forall|i: int| 0 <= i < q.entries.len() implies weigh(
        Measure::Finished,
        #[trigger] q.entries[i],
    ) == weigh(Measure::Counted, q.entries[i]) by {
        assert(q.entries[i].status.terminal());
    }
    lemma_total_eq(q.entries, Measure::Moved, Measure::Expected);
    lemma_total_eq(q.entries, Measure::Finished, Measure::Counted);
}

} // verus!
