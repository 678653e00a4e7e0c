//! The transfer queue and its executor.

use crate::entry::{contains_name, entries_view, FileEntry, FileEntryView};
use crate::path::AbsPath;
use crate::transfer::lemmas::{
    lemma_active_same, lemma_behind_active_waits, lemma_done_within_total,
    lemma_none_in_flight_is_idle, lemma_enqueue_wf, lemma_expand_wf, lemma_finish_wf, lemma_first_open_from,
    lemma_first_conflict_is, lemma_first_open_is, lemma_in_flight_is_active,
    lemma_progress_wf, lemma_resolve_wf, lemma_settle_all_wf, lemma_start_wf, lemma_total_bound,
    lemma_total_push, lemma_total_update,
};
use crate::transfer::model::{
    percent, queued, queued_all, settle_all, total, weight, Decision,
    Direction, EntryStatus, FailureReason, Measure, Outcome, QueueEntryView, TransferAction, TransferKind,
    TransferQueueView,
};
use vstd::prelude::*;

verus! {

/// One object to be copied.
#[derive(Debug)]
pub struct TransferQueueEntry {
    pub source_path: AbsPath,
    pub dest_path: AbsPath,
    pub kind: TransferKind,
    pub direction: Direction,
    /// Size in bytes as the listing announced it, corrected by what the copy
    /// finds.
    pub size_hint: u64,
    /// Bytes copied so far.
    pub transferred: u64,
    pub status: EntryStatus,
}

impl View for TransferQueueEntry {
    type V = QueueEntryView;

    open spec fn view(&self) -> QueueEntryView {
        QueueEntryView {
            source_path: self.source_path@,
            dest_path: self.dest_path@,
            kind: self.kind,
            direction: self.direction,
            size_hint: self.size_hint,
            transferred: self.transferred,
            status: self.status,
        }
    }
}

impl TransferQueueEntry {
    /// The entry that a selected object becomes: bound for its own name inside
    /// `dest_dir`, and in conflict where `existing`, the listing of that
    /// directory, holds the name already.
    pub fn queued(
        entry: &FileEntry,
        direction: Direction,
        dest_dir: &AbsPath,
        existing: &Vec<FileEntry>,
    ) -> (queued_entry: TransferQueueEntry)
        ensures
            queued_entry@ == queued(entry@, direction, dest_dir@, entries_view(existing@)),
    {
        let dir = entry.is_dir();
        TransferQueueEntry {
            source_path: entry.absolute_path.clone(),
            dest_path: dest_dir.join(entry.name.as_str()),
            kind: if dir {
                TransferKind::Directory
            } else {
                TransferKind::File
            },
            direction,
            size_hint: if dir {
                0
            } else {
                entry.size
            },
            transferred: 0,
            status: if contains_name(existing, &entry.name) {
                EntryStatus::Conflict
            } else {
                EntryStatus::Pending
            },
        }
    }
}

/// The values of queue entries, in order.
pub open spec fn queue_views(entries: Seq<TransferQueueEntry>) -> Seq<QueueEntryView> {
    entries.map_values(|e: TransferQueueEntry| e@)
}

/// Progress of the queue as a whole.
#[derive(Clone, Copy, Debug)]
pub struct TransferStates {
    /// Index of the entry in flight.
    pub active_entry: Option<usize>,
    /// Bytes that the queue is expected to move in all.
    pub bytes_total: u128,
    /// Bytes that the queue has moved.
    pub bytes_done: u128,
    /// Entries that are to be copied or were copied.
    pub file_total: usize,
    /// Entries that were copied.
    pub file_done: usize,
    /// Milliseconds since the Unix epoch at which the first entry went in flight.
    pub started_at: Option<i64>,
    /// The user stopped the queue.
    pub aborted: bool,
}

/// The queue of transfers, run strictly in order, one entry at a time.
#[derive(Debug)]
pub struct TransferQueue {
    entries: Vec<TransferQueueEntry>,
    states: TransferStates,
    /// Every entry before this index is finished.
    cursor: usize,
    paused: bool,
}

impl View for TransferQueue {
    type V = TransferQueueView;

    closed spec fn view(&self) -> TransferQueueView {
        TransferQueueView {
            entries: queue_views(self.entries@),
            aborted: self.states.aborted,
            paused: self.paused,
            started_at: self.states.started_at,
        }
    }
}

fn expected_bytes(status: EntryStatus, size_hint: u64, transferred: u64) -> (w: u64)
    ensures
        w == weight(Measure::Expected, status, size_hint, transferred),
{
    match status {
        EntryStatus::Skipped => 0,
        EntryStatus::Failed(_) => transferred,
        _ => size_hint,
    }
}

fn counted(status: EntryStatus) -> (w: usize)
    ensures
        w == weight(Measure::Counted, status, 0, 0),
        w <= 1,
{
    match status {
        EntryStatus::Skipped => 0,
        EntryStatus::Failed(_) => 0,
        _ => 1,
    }
}

fn finished(status: EntryStatus) -> (w: usize)
    ensures
        w == weight(Measure::Finished, status, 0, 0),
        w <= 1,
{
    match status {
        EntryStatus::Done => 1,
        _ => 0,
    }
}

fn is_terminal(status: EntryStatus) -> (t: bool)
    ensures
        t == status.terminal(),
{
    match status {
        EntryStatus::Done => true,
        EntryStatus::Failed(_) => true,
        EntryStatus::Skipped => true,
        _ => false,
    }
}

/// No sum over a queue that fits in memory leaves the range of its counter.
proof fn lemma_sums_fit(s: Seq<QueueEntryView>)
    requires
        s.len() <= usize::MAX,
    ensures
        total(s, Measure::Expected) <= u128::MAX,
        total(s, Measure::Moved) <= u128::MAX,
        total(s, Measure::Counted) <= usize::MAX,
        total(s, Measure::Finished) <= usize::MAX,
{
    lemma_total_bound(s, Measure::Expected, u64::MAX as nat);
    lemma_total_bound(s, Measure::Moved, u64::MAX as nat);
    lemma_total_bound(s, Measure::Counted, 1);
    lemma_total_bound(s, Measure::Finished, 1);
    let n = s.len();
    assert(n * (u64::MAX as nat) <= u128::MAX) by (nonlinear_arith)
        requires
            n <= u64::MAX,
    ;
}

/// The share of `total` that `done` makes, in whole hundredths rounded down.
pub fn percent_of(done: u128, total: u128) -> (share: u8)
    requires
        done <= total,
    ensures
        share == percent(done as nat, total as nat),
        share <= 100,
{
    if total == 0 {
        return 100;
    }
    // After `k` rounds, `k * done == share * total + rest` with `rest < total`.
    let mut share: u8 = 0;
    let mut rest: u128 = 0;
    let mut k: u8 = 0;
    while k < 100
        invariant
            k <= 100,
            share <= k,
            done <= total,
            rest < total,
            k * done == share * total + rest,
        decreases 100 - k,
    {
        let ghost was_share = share as int;
        let ghost was_rest = rest as int;
        if rest >= total - done {
            rest = rest - (total - done);
            share += 1;
            assert((k + 1) * done == share * total + rest) by (nonlinear_arith)
                requires
                    k * done == was_share * total + was_rest,
                    share == was_share + 1,
                    rest == was_rest + done - total,
            ;
        } else {
            rest = rest + done;
            assert((k + 1) * done == share * total + rest) by (nonlinear_arith)
                requires
                    k * done == was_share * total + was_rest,
                    share == was_share,
                    rest == was_rest + done,
            ;
        }
        k += 1;
    }
    assert(share == (done as nat) * 100 / (total as nat)) by (nonlinear_arith)
        requires
            100 * done == share * total + rest,
            0 <= rest < total,
    ;
    share
}

impl TransferQueue {
    /// The four counters hold the sums over the entries.
    pub closed spec fn counts_ok(&self) -> bool {
        &&& self.states.bytes_total == self@.bytes_total()
        &&& self.states.bytes_done == self@.bytes_done()
        &&& self.states.file_total == self@.file_total()
        &&& self.states.file_done == self@.file_done()
    }

    /// The queue is in order, its counters are right, and its notes on where to
    /// go on agree with its entries.
    pub closed spec fn wf(&self) -> bool {
        &&& self@.wf()
        &&& self.counts_ok()
        &&& self.cursor <= self.entries.len()
        &&& forall|j: int| 0 <= j < self.cursor ==> (#[trigger] self@.entries[j]).status.terminal()
        &&& self.states.active_entry == match self@.active() {
            Some(i) => Some(i as usize),
            None => None::<usize>,
        }
    }

    /// What well-formedness says of the value.
    pub proof fn lemma_wf(&self)
        requires
            self.wf(),
        ensures
            self@.wf(),
    {
    }

    /// An empty queue.
    pub fn new() -> (queue: TransferQueue)
        ensures
            queue.wf(),
            queue@ == TransferQueueView::empty(),
    {
        let queue = TransferQueue {
            entries: Vec::new(),
            states: TransferStates {
                active_entry: None,
                bytes_total: 0,
                bytes_done: 0,
                file_total: 0,
                file_done: 0,
                started_at: None,
                aborted: false,
            },
            cursor: 0,
            paused: false,
        };
        assert(queue@.entries =~= Seq::<QueueEntryView>::empty());
        queue
    }

    /// Replaces status and counts of the entry at `i` and keeps the counters.
    fn put(&mut self, i: usize, status: EntryStatus, size_hint: u64, transferred: u64)
        requires
            old(self).counts_ok(),
            i < old(self).entries.len(),
        ensures
            final(self).counts_ok(),
            final(self)@ == old(self)@.with_entries(
                old(self)@.entries.update(
                    i as int,
                    (QueueEntryView { status, size_hint, transferred, ..old(self)@.entries[i as int] }),
                ),
            ),
            final(self).cursor == old(self).cursor,
            final(self).states.active_entry == old(self).states.active_entry,
            final(self).entries.len() == old(self).entries.len(),
    {
        let ghost before = self@.entries;
        let ghost e = QueueEntryView { status, size_hint, transferred, ..before[i as int] };
        let was_status = self.entries[i].status;
        let was_size = self.entries[i].size_hint;
        let was_moved = self.entries[i].transferred;
        proof {
            lemma_total_update(before, i as int, e, Measure::Expected);
            lemma_total_update(before, i as int, e, Measure::Moved);
            lemma_total_update(before, i as int, e, Measure::Counted);
            lemma_total_update(before, i as int, e, Measure::Finished);
            lemma_sums_fit(before.update(i as int, e));
        }
        self.states.bytes_total = self.states.bytes_total - (expected_bytes(
            was_status,
            was_size,
            was_moved,
        ) as u128) + (expected_bytes(status, size_hint, transferred) as u128);
        self.states.bytes_done = self.states.bytes_done - (was_moved as u128) + (transferred as u128);
        self.states.file_total = self.states.file_total - counted(was_status) + counted(status);
        self.states.file_done = self.states.file_done - finished(was_status) + finished(status);
        self.entries[i].status = status;
        self.entries[i].size_hint = size_hint;
        self.entries[i].transferred = transferred;
        assert(self@.entries =~= before.update(i as int, e));
    }

    /// Appends an entry and keeps the counters.
    fn push_entry(&mut self, entry: TransferQueueEntry)
        requires
            old(self).counts_ok(),
        ensures
            final(self).counts_ok(),
            final(self)@ == old(self)@.with_entries(old(self)@.entries.push(entry@)),
            final(self).cursor == old(self).cursor,
            final(self).states.active_entry == old(self).states.active_entry,
            final(self).entries.len() == old(self).entries.len() + 1,
    {
        let ghost before = self@.entries;
        let ghost e = entry@;
        let expected = expected_bytes(entry.status, entry.size_hint, entry.transferred);
        let moved = entry.transferred;
        let count = counted(entry.status);
        let done = finished(entry.status);
        self.entries.push(entry);
        let n = self.entries.len();
        proof {
            assert(self@.entries =~= before.push(e));
            lemma_total_push(before, e, Measure::Expected);
            lemma_total_push(before, e, Measure::Moved);
            lemma_total_push(before, e, Measure::Counted);
            lemma_total_push(before, e, Measure::Finished);
            lemma_sums_fit(before.push(e));
        }
        self.states.bytes_total = self.states.bytes_total + (expected as u128);
        self.states.bytes_done = self.states.bytes_done + (moved as u128);
        self.states.file_total = self.states.file_total + count;
        self.states.file_done = self.states.file_done + done;
    }
}

impl TransferQueue {
    /// The number of entries.
    pub fn len(&self) -> (n: usize)
        ensures
            n == self@.entries.len(),
    {
        self.entries.len()
    }

    /// The entry at the index.
    pub fn get(&self, i: usize) -> (entry: Option<&TransferQueueEntry>)
        ensures
            i >= self@.entries.len() ==> entry is None,
            i < self@.entries.len() ==> entry is Some && entry->0@ == self@.entries[i as int],
    {
        if i < self.entries.len() {
            Some(&self.entries[i])
        } else {
            None
        }
    }

    /// The progress of the queue. Done never exceeds total.
    pub fn states(&self) -> (states: TransferStates)
        requires
            self.wf(),
        ensures
            states.bytes_total == self@.bytes_total(),
            states.bytes_done == self@.bytes_done(),
            states.file_total == self@.file_total(),
            states.file_done == self@.file_done(),
            states.bytes_done <= states.bytes_total,
            states.file_done <= states.file_total,
            states.aborted == self@.aborted,
            states.started_at == self@.started_at,
            states.active_entry is Some <==> self@.active() is Some,
            states.active_entry is Some ==> states.active_entry->0 == self@.active()->0,
    {
        proof {
            lemma_done_within_total(self@);
            lemma_first_open_from(self@.entries, 0);
            assert(self.entries.len() == self@.entries.len());
        }
        self.states
    }

    /// The number of entries that wait for the user's decision.
    pub fn conflicts(&self) -> (n: usize)
        ensures
            n == self@.conflicts(),
    {
        let mut n: usize = 0;
        let mut i: usize = 0;
        while i < self.entries.len()
            invariant
                i <= self.entries.len(),
                n == total(self@.entries.take(i as int), Measure::Conflicts),
                n <= i,
            decreases self.entries.len() - i,
        {
            proof {
                assert(self@.entries.take(i + 1) =~= self@.entries.take(i as int).push(
                    self@.entries[i as int],
                ));
                lemma_total_push(
                    self@.entries.take(i as int),
                    self@.entries[i as int],
                    Measure::Conflicts,
                );
                assert(self@.entries[i as int].status == self.entries[i as int].status);
            }
            if self.entries[i].status == EntryStatus::Conflict {
                n += 1;
            }
            i += 1;
        }
        assert(self@.entries.take(self.entries.len() as int) =~= self@.entries);
        n
    }

    /// Whether the queue waits for the connection to come back.
    pub fn is_paused(&self) -> (paused: bool)
        ensures
            paused == self@.paused,
    {
        self.paused
    }

    /// Whether the user stopped the queue.
    pub fn is_aborted(&self) -> (aborted: bool)
        ensures
            aborted == self@.aborted,
    {
        self.states.aborted
    }

    /// Appends the selection, in its order. An object whose name `existing`, the
    /// listing of `dest_dir`, holds already is queued as a conflict.
    pub fn enqueue(
        &mut self,
        selection: &Vec<FileEntry>,
        direction: Direction,
        dest_dir: &AbsPath,
        existing: &Vec<FileEntry>,
    )
        requires
            old(self).wf(),
        ensures
            final(self).wf(),
            final(self)@ == old(self)@.enqueue(
                entries_view(selection@),
                direction,
                dest_dir@,
                entries_view(existing@),
            ),
    {
        let ghost before = self@;
        let ghost added = queued_all(
            entries_view(selection@),
            direction,
            dest_dir@,
            entries_view(existing@),
        );
        let mut k: usize = 0;
        while k < selection.len()
            invariant
                k <= selection.len(),
                self.counts_ok(),
                self@ == before.with_entries(before.entries + added.take(k as int)),
                self.cursor == old(self).cursor,
                self.states.active_entry == old(self).states.active_entry,
                added == queued_all(
                    entries_view(selection@),
                    direction,
                    dest_dir@,
                    entries_view(existing@),
                ),
            decreases selection.len() - k,
        {
            let entry = TransferQueueEntry::queued(&selection[k], direction, dest_dir, existing);
            self.push_entry(entry);
            assert(before.entries + added.take(k + 1) =~= (before.entries + added.take(k as int)).push(
                added[k as int],
            ));
            k += 1;
        }
        proof {
            assert(added.take(selection.len() as int) =~= added);
            lemma_enqueue_wf(
                before,
                entries_view(selection@),
                direction,
                dest_dir@,
                entries_view(existing@),
            );
            lemma_active_same(before, self@);
        }
    }
}

impl TransferQueue {
    /// Answers every open conflict with `status` and says how many there were.
    fn settle(&mut self, status: EntryStatus) -> (n: usize)
        requires
            old(self).wf(),
            status is Pending || status is Skipped,
        ensures
            final(self).wf(),
            final(self)@ == old(self)@.with_entries(settle_all(old(self)@.entries, status)),
            n == old(self)@.conflicts(),
    {
        let ghost before = self@;
        let mut n: usize = 0;
        let mut i: usize = 0;
        assert(before.entries =~= Seq::new(
            before.entries.len(),
            |j: int|
                if j < i {
                    before.entries[j].settled(status)
                } else {
                    before.entries[j]
                },
        ));
        while i < self.entries.len()
            invariant
                i <= self.entries.len(),
                self.entries.len() == before.entries.len(),
                self.counts_ok(),
                self@ == before.with_entries(
                    Seq::new(
                        before.entries.len(),
                        |j: int|
                            if j < i {
                                before.entries[j].settled(status)
                            } else {
                                before.entries[j]
                            },
                    ),
                ),
                self.cursor == old(self).cursor,
                self.states.active_entry == old(self).states.active_entry,
                n == total(before.entries.take(i as int), Measure::Conflicts),
                n <= i,
            decreases self.entries.len() - i,
        {
            assert(self@.entries[i as int] == before.entries[i as int]);
            if self.entries[i].status == EntryStatus::Conflict {
                let size = self.entries[i].size_hint;
                let moved = self.entries[i].transferred;
                self.put(i, status, size, moved);
                n += 1;
            }
            proof {
                assert(before.entries.take(i + 1) =~= before.entries.take(i as int).push(
                    before.entries[i as int],
                ));
                lemma_total_push(
                    before.entries.take(i as int),
                    before.entries[i as int],
                    Measure::Conflicts,
                );
                assert(self@.entries =~= Seq::new(
                    before.entries.len(),
                    |j: int|
                        if j < i + 1 {
                            before.entries[j].settled(status)
                        } else {
                            before.entries[j]
                        },
                ));
            }
            i += 1;
        }
        proof {
            assert(before.entries.take(before.entries.len() as int) =~= before.entries);
            assert(self@.entries =~= settle_all(before.entries, status));
            lemma_settle_all_wf(before, status);
            lemma_active_same(before, self@);
        }
        n
    }

    /// Stops the queue: nothing more will start, and the conflicts that were
    /// still open are skipped. The entry in flight, if any, goes on until its
    /// copy reports back.
    pub fn abort(&mut self)
        requires
            old(self).wf(),
        ensures
            final(self).wf(),
            final(self)@ == old(self)@.abort(),
    {
        let _ = self.settle(EntryStatus::Skipped);
        self.states.aborted = true;
    }

    /// Applies the user's answer to the first open conflict and says how many
    /// conflicts it settled.
    pub fn resolve(&mut self, decision: Decision) -> (settled: usize)
        requires
            old(self).wf(),
        ensures
            final(self).wf(),
            final(self)@ == old(self)@.resolve(decision),
            settled == match decision {
                Decision::ReplaceThis | Decision::SkipThis => if old(self)@.first_conflict() < old(
                    self,
                )@.entries.len() {
                    1nat
                } else {
                    0nat
                },
                _ => old(self)@.conflicts(),
            },
    {
        let ghost before = self@;
        let status = match decision {
            Decision::ReplaceThis => EntryStatus::Pending,
            Decision::ReplaceAll => EntryStatus::Pending,
            _ => EntryStatus::Skipped,
        };
        match decision {
            Decision::ReplaceAll | Decision::SkipAll => self.settle(status),
            Decision::Abort => {
                let n = self.settle(status);
                self.states.aborted = true;
                n
            },
            Decision::ReplaceThis | Decision::SkipThis => {
                let mut i: usize = 0;
                while i < self.entries.len() && self.entries[i].status != EntryStatus::Conflict
                    invariant
                        i <= self.entries.len(),
                        forall|j: int| 0 <= j < i ==> !((#[trigger] self@.entries[j]).status is Conflict),
                    decreases self.entries.len() - i,
                {
                    assert(self@.entries[i as int].status == self.entries[i as int].status);
                    i += 1;
                }
                proof {
                    if i < self.entries.len() {
                        assert(self@.entries[i as int].status == self.entries[i as int].status);
                    }
                    lemma_first_conflict_is(self@.entries, 0, i as int);
                    lemma_resolve_wf(before, decision);
                }
                if i < self.entries.len() {
                    let size = self.entries[i].size_hint;
                    let moved = self.entries[i].transferred;
                    self.put(i, status, size, moved);
                    proof {
                        assert(self@.entries =~= before.resolve(decision).entries);
                        lemma_active_same(before, self@);
                    }
                    1
                } else {
                    0
                }
            },
        }
    }
}

impl TransferQueue {
    /// Takes the executor's next step at the instant `now` and says what to do.
    /// A pending entry at the front goes in flight; a conflict at the front
    /// waits for its answer; an aborted or paused queue starts nothing.
    pub fn start_next(&mut self, now: i64) -> (action: TransferAction)
        requires
            old(self).wf(),
        ensures
            final(self).wf(),
            action == old(self)@.next_action(),
            final(self)@ == old(self)@.start(now),
            final(self)@.entries.len() == old(self)@.entries.len(),
            match action {
                TransferAction::Busy(i)
                | TransferAction::AwaitDecision(i)
                | TransferAction::CopyFile(i)
                | TransferAction::ExpandDirectory(i) => i == old(self)@.first_open() && i < old(
                    self,
                )@.entries.len(),
                _ => true,
            },
    {
        let ghost before = self@;
        proof {
            lemma_first_open_from(before.entries, 0);
            lemma_start_wf(before, now);
        }
        while self.cursor < self.entries.len() && is_terminal(self.entries[self.cursor].status)
            invariant
                self.cursor <= self.entries.len(),
                self@ == before,
                self.entries == old(self).entries,
                self.states == old(self).states,
                self.paused == old(self).paused,
                forall|j: int| 0 <= j < self.cursor ==> (#[trigger] self@.entries[j]).status.terminal(),
            decreases self.entries.len() - self.cursor,
        {
            assert(self@.entries[self.cursor as int].status == self.entries[self.cursor as int].status);
            self.cursor += 1;
        }
        let i = self.cursor;
        proof {
            if i < self.entries.len() {
                assert(self@.entries[i as int].status == self.entries[i as int].status);
            }
            lemma_first_open_is(before.entries, 0, i as int);
        }
        if self.states.aborted {
            return TransferAction::Halted;
        }
        if self.paused {
            return TransferAction::Paused;
        }
        if i >= self.entries.len() {
            return TransferAction::Complete;
        }
        match self.entries[i].status {
            EntryStatus::Conflict => TransferAction::AwaitDecision(i),
            EntryStatus::Pending => {
                let size = self.entries[i].size_hint;
                let moved = self.entries[i].transferred;
                let kind = self.entries[i].kind;
                self.put(i, EntryStatus::InProgress, size, moved);
                self.states.active_entry = Some(i);
                if self.states.started_at.is_none() {
                    self.states.started_at = Some(now);
                }
                proof {
                    assert(self@.entries =~= before.start(now).entries);
                    lemma_in_flight_is_active(self@, i as int);
                }
                match kind {
                    TransferKind::File => TransferAction::CopyFile(i),
                    TransferKind::Directory => TransferAction::ExpandDirectory(i),
                }
            },
            _ => TransferAction::Busy(i),
        }
    }

    /// Notes that `written` bytes of the entry in flight are across, and says
    /// whether the copy may go on: it may until the queue is aborted.
    pub fn report_progress(&mut self, written: u64) -> (go_on: bool)
        requires
            old(self).wf(),
        ensures
            final(self).wf(),
            final(self)@ == old(self)@.progress(written),
            go_on == !old(self)@.aborted,
    {
        let ghost before = self@;
        proof {
            lemma_first_open_from(before.entries, 0);
            lemma_progress_wf(before, written);
        }
        if let Some(i) = self.states.active_entry {
            assert(self@.entries[i as int].status == self.entries[i as int].status);
            let size = self.entries[i].size_hint;
            let grown = if written > size {
                written
            } else {
                size
            };
            self.put(i, EntryStatus::InProgress, grown, written);
            proof {
                assert(self@.entries =~= before.progress(written).entries);
                lemma_active_same(before, self@);
            }
        }
        !self.states.aborted
    }

    /// Closes the entry in flight with the outcome of its copy. A lost
    /// connection pauses the queue.
    pub fn finish(&mut self, outcome: Outcome)
        requires
            old(self).wf(),
        ensures
            final(self).wf(),
            final(self)@ == old(self)@.finish(outcome),
    {
        let ghost before = self@;
        proof {
            lemma_first_open_from(before.entries, 0);
            lemma_finish_wf(before, outcome);
        }
        if let Some(i) = self.states.active_entry {
            match outcome {
                Outcome::Completed(bytes) => {
                    self.put(i, EntryStatus::Done, bytes, bytes);
                },
                Outcome::Failed(reason) => {
                    let size = self.entries[i].size_hint;
                    let moved = self.entries[i].transferred;
                    self.put(i, EntryStatus::Failed(reason), size, moved);
                    if reason == FailureReason::ConnectionLost {
                        self.paused = true;
                    }
                },
            }
            self.states.active_entry = None;
            proof {
                assert(self@.entries =~= before.finish(outcome).entries);
                lemma_behind_active_waits(before);
                lemma_none_in_flight_is_idle(self@);
            }
        }
    }

    /// Closes the directory in flight, whose source was listed as `children`,
    /// and appends the children, each bound for its own name inside the
    /// directory. Where the entry in flight is no directory, nothing changes.
    pub fn expand(&mut self, children: &Vec<FileEntry>)
        requires
            old(self).wf(),
        ensures
            final(self).wf(),
            final(self)@ == old(self)@.expand(entries_view(children@)),
    {
        let ghost before = self@;
        proof {
            lemma_first_open_from(before.entries, 0);
            lemma_expand_wf(before, entries_view(children@));
        }
        if let Some(i) = self.states.active_entry {
            if self.entries[i].kind == TransferKind::Directory {
                let direction = self.entries[i].direction;
                let dest_dir = self.entries[i].dest_path.clone();
                let nothing: Vec<FileEntry> = Vec::new();
                self.put(i, EntryStatus::Done, 0, 0);
                self.states.active_entry = None;
                let ghost mid = self@;
                let ghost added = queued_all(
                    entries_view(children@),
                    direction,
                    dest_dir@,
                    Seq::empty(),
                );
                assert(entries_view(nothing@) =~= Seq::<FileEntryView>::empty());
                let mut k: usize = 0;
                while k < children.len()
                    invariant
                        k <= children.len(),
                        self.counts_ok(),
                        self@ == mid.with_entries(mid.entries + added.take(k as int)),
                        self.cursor == old(self).cursor,
                        self.states.active_entry is None,
                        entries_view(nothing@) == Seq::<FileEntryView>::empty(),
                        added == queued_all(
                            entries_view(children@),
                            direction,
                            dest_dir@,
                            Seq::empty(),
                        ),
                    decreases children.len() - k,
                {
                    let entry = TransferQueueEntry::queued(
                        &children[k],
                        direction,
                        &dest_dir,
                        &nothing,
                    );
                    self.push_entry(entry);
                    assert(mid.entries + added.take(k + 1) =~= (mid.entries + added.take(
                        k as int,
                    )).push(added[k as int]));
                    k += 1;
                }
                proof {
                    assert(added.take(children.len() as int) =~= added);
                    assert(self@.entries =~= before.expand(entries_view(children@)).entries);
                    lemma_behind_active_waits(before);
                    lemma_none_in_flight_is_idle(self@);
                }
            }
        }
    }

    /// Lets the queue go on after the connection came back.
    pub fn resume(&mut self)
        requires
            old(self).wf(),
        ensures
            final(self).wf(),
            final(self)@ == old(self)@.resume(),
    {
        self.paused = false;
    }

    /// Drops every entry and starts afresh, unless an entry is in flight.
    pub fn clear(&mut self)
        requires
            old(self).wf(),
        ensures
            final(self).wf(),
            final(self)@ == old(self)@.clear(),
    {
        if self.states.active_entry.is_none() {
            *self = TransferQueue::new();
        }
    }

    /// Whether every entry is finished.
    pub fn is_complete(&self) -> (complete: bool)
        requires
            self.wf(),
        ensures
            complete == self@.complete(),
    {
        let mut i: usize = self.cursor;
        while i < self.entries.len() && is_terminal(self.entries[i].status)
            invariant
                i <= self.entries.len(),
                forall|j: int| 0 <= j < i ==> (#[trigger] self@.entries[j]).status.terminal(),
            decreases self.entries.len() - i,
        {
            assert(self@.entries[i as int].status == self.entries[i as int].status);
            i += 1;
        }
        if i < self.entries.len() {
            assert(self@.entries[i as int].status == self.entries[i as int].status);
        }
        i >= self.entries.len()
    }
}

impl TransferQueue {
    /// The share of the whole queue that is across, in hundredths.
    pub fn overall_percent(&self) -> (share: u8)
        requires
            self.wf(),
        ensures
            share == percent(self@.bytes_done(), self@.bytes_total()),
            share <= 100,
    {
        proof {
            lemma_done_within_total(self@);
        }
        percent_of(self.states.bytes_done, self.states.bytes_total)
    }

    /// The share of the entry in flight that is across, in hundredths; `None`
    /// while no entry is in flight.
    pub fn active_percent(&self) -> (share: Option<u8>)
        requires
            self.wf(),
        ensures
            share is Some <==> self@.active() is Some,
            share is Some ==> share->0 == percent(
                self@.entries[self@.active()->0].transferred as nat,
                self@.entries[self@.active()->0].size_hint as nat,
            ),
    {
        proof {
            lemma_first_open_from(self@.entries, 0);
            assert(self.entries.len() == self@.entries.len());
        }
        match self.states.active_entry {
            Some(i) => {
                assert(self@.entries[i as int] == self.entries[i as int]@);
                assert(self@.entries[i as int].consistent());
                Some(
                    percent_of(
                        self.entries[i].transferred as u128,
                        self.entries[i].size_hint as u128,
                    ),
                )
            },
            None => None,
        }
    }
}

} // verus!
