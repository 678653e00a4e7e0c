//! The transfer queue as a mathematical value, and the steps that change it.

use crate::entry::{has_name, FileEntryView};
use vstd::prelude::*;

verus! {

/// Which way a transfer goes.
#[derive(Clone, Copy, Debug, PartialEq, Eq, Structural)]
pub enum Direction {
    /// From the local side to the remote side.
    Upload,
    /// From the remote side to the local side.
    Download,
}

/// What a queue entry copies.
#[derive(Clone, Copy, Debug, PartialEq, Eq, Structural)]
pub enum TransferKind {
    File,
    Directory,
}

/// Why an entry was given up.
#[derive(Clone, Copy, Debug, PartialEq, Eq, Structural)]
pub enum FailureReason {
    /// The connection to the remote side dropped while the entry was in flight.
    ConnectionLost,
    /// The user stopped the queue while the entry was in flight.
    Aborted,
    /// The local file system refused the operation.
    Io,
    /// The remote side refused the operation.
    Remote,
}

/// How far an entry has come.
#[derive(Clone, Copy, Debug, PartialEq, Eq, Structural)]
pub enum EntryStatus {
    /// Waits for its turn.
    Pending,
    /// The destination exists already; the user has to decide.
    Conflict,
    /// Will not be copied.
    Skipped,
    /// Is being copied.
    InProgress,
    /// Was copied.
    Done,
    /// Was given up.
    Failed(FailureReason),
}

/// What the user answers when a destination exists already.
#[derive(Clone, Copy, Debug, PartialEq, Eq, Structural)]
pub enum Decision {
    ReplaceThis,
    ReplaceAll,
    SkipThis,
    SkipAll,
    Abort,
}

/// How the copy of the entry in flight ended.
#[derive(Clone, Copy, Debug, PartialEq, Eq, Structural)]
pub enum Outcome {
    /// The copy went through; the number is the count of bytes written.
    Completed(u64),
    /// The copy was given up.
    Failed(FailureReason),
}

/// What the executor asks for next.
#[derive(Clone, Copy, Debug, PartialEq, Eq, Structural)]
pub enum TransferAction {
    /// Nothing is left to do.
    Complete,
    /// The queue was aborted; nothing more will run.
    Halted,
    /// The connection dropped; the queue waits for it to come back.
    Paused,
    /// The entry at the index is in flight already.
    Busy(usize),
    /// The entry at the index waits for the user's decision.
    AwaitDecision(usize),
    /// Copy the file of the entry at the index.
    CopyFile(usize),
    /// Create the directory of the entry at the index and list its source.
    ExpandDirectory(usize),
}

impl EntryStatus {
    /// The entry will not change any more.
    pub open spec fn terminal(self) -> bool {
        self is Done || self is Failed || self is Skipped
    }

    /// The entry has not been started.
    pub open spec fn waiting(self) -> bool {
        self is Pending || self is Conflict || self is Skipped
    }
}

/// The mathematical value of a queue entry.
pub struct QueueEntryView {
    pub source_path: Seq<Seq<char>>,
    pub dest_path: Seq<Seq<char>>,
    pub kind: TransferKind,
    pub direction: Direction,
    pub size_hint: u64,
    pub transferred: u64,
    pub status: EntryStatus,
}

impl QueueEntryView {
    /// The counts of an entry agree with its status: nothing was moved for an
    /// entry that never ran, all of it for one that is done, and never more than
    /// its size.
    pub open spec fn consistent(self) -> bool {
        match self.status {
            EntryStatus::Pending | EntryStatus::Conflict | EntryStatus::Skipped => self.transferred
                == 0,
            EntryStatus::Done => self.transferred == self.size_hint,
            EntryStatus::InProgress | EntryStatus::Failed(_) => self.transferred <= self.size_hint,
        }
    }

    /// The entry with another status.
    pub open spec fn with_status(self, status: EntryStatus) -> QueueEntryView {
        QueueEntryView { status, ..self }
    }

    /// The entry after a progress report: `written` bytes are across, and the
    /// size grows with them where the file proved larger than announced.
    pub open spec fn advanced(self, written: u64) -> QueueEntryView {
        QueueEntryView {
            transferred: written,
            size_hint: if written > self.size_hint {
                written
            } else {
                self.size_hint
            },
            ..self
        }
    }

    /// The entry after its copy went through with `bytes` bytes written.
    pub open spec fn completed(self, bytes: u64) -> QueueEntryView {
        QueueEntryView { transferred: bytes, size_hint: bytes, status: EntryStatus::Done, ..self }
    }

    /// A conflict answered with `status`; any other entry as it is.
    pub open spec fn settled(self, status: EntryStatus) -> QueueEntryView {
        if self.status is Conflict {
            self.with_status(status)
        } else {
            self
        }
    }
}

/// What is added up over the entries of a queue.
pub enum Measure {
    /// Bytes that the entry is expected to move in all.
    Expected,
    /// Bytes that the entry has moved.
    Moved,
    /// One for each entry that is to be copied or was copied.
    Counted,
    /// One for each entry that was copied.
    Finished,
    /// One for each entry that waits for the user's decision.
    Conflicts,
}

/// What an entry with the given status and counts adds to a measure. A skipped
/// entry is expected to move nothing, a failed one no more than it did move, and
/// neither is counted.
pub open spec fn weight(m: Measure, status: EntryStatus, size_hint: u64, transferred: u64) -> nat {
    match m {
        Measure::Expected => match status {
            EntryStatus::Skipped => 0,
            EntryStatus::Failed(_) => transferred as nat,
            _ => size_hint as nat,
        },
        Measure::Moved => transferred as nat,
        Measure::Counted => if status is Skipped || status is Failed {
            0
        } else {
            1
        },
        Measure::Finished => if status is Done {
            1
        } else {
            0
        },
        Measure::Conflicts => if status is Conflict {
            1
        } else {
            0
        },
    }
}

/// What one entry adds to a measure.
pub open spec fn weigh(m: Measure, e: QueueEntryView) -> nat {
    weight(m, e.status, e.size_hint, e.transferred)
}

/// The sum of a measure over all entries.
pub open spec fn total(s: Seq<QueueEntryView>, m: Measure) -> nat
    decreases s.len(),
{
    if s.len() == 0 {
        0
    } else {
        total(s.drop_last(), m) + weigh(m, s.last())
    }
}

/// Entries run strictly in order: behind an entry that is not finished, nothing
/// has been started.
pub open spec fn ordered(s: Seq<QueueEntryView>) -> bool {
    forall|i: int, j: int|
        #![trigger s[i], s[j]]
        0 <= i < j < s.len() && !s[i].status.terminal() ==> s[j].status.waiting()
}

/// The index of the first entry at or behind `k` that is not finished, or the
/// length of the queue.
pub open spec fn first_open_from(s: Seq<QueueEntryView>, k: int) -> int
    decreases s.len() - k,
{
    if k < 0 || k >= s.len() {
        s.len() as int
    } else if !s[k].status.terminal() {
        k
    } else {
        first_open_from(s, k + 1)
    }
}

/// The index of the first conflict at or behind `k`, or the length of the queue.
pub open spec fn first_conflict_from(s: Seq<QueueEntryView>, k: int) -> int
    decreases s.len() - k,
{
    if k < 0 || k >= s.len() {
        s.len() as int
    } else if s[k].status is Conflict {
        k
    } else {
        first_conflict_from(s, k + 1)
    }
}

/// The entry that a selected object becomes: it goes to its own name inside
/// `dest_dir`, and is in conflict where `existing`, the listing of that
/// directory, holds the name already.
pub open spec fn queued(
    e: FileEntryView,
    direction: Direction,
    dest_dir: Seq<Seq<char>>,
    existing: Seq<FileEntryView>,
) -> QueueEntryView {
    QueueEntryView {
        source_path: e.absolute_path,
        dest_path: dest_dir.push(e.name),
        kind: if e.kind is Directory {
            TransferKind::Directory
        } else {
            TransferKind::File
        },
        direction,
        size_hint: if e.kind is Directory {
            0
        } else {
            e.size
        },
        transferred: 0,
        status: if has_name(existing, e.name) {
            EntryStatus::Conflict
        } else {
            EntryStatus::Pending
        },
    }
}

/// The entries that a selection becomes, in the order of the selection.
pub open spec fn queued_all(
    selection: Seq<FileEntryView>,
    direction: Direction,
    dest_dir: Seq<Seq<char>>,
    existing: Seq<FileEntryView>,
) -> Seq<QueueEntryView> {
    Seq::new(selection.len(), |i: int| queued(selection[i], direction, dest_dir, existing))
}

/// Every conflict answered with `status`.
pub open spec fn settle_all(s: Seq<QueueEntryView>, status: EntryStatus) -> Seq<QueueEntryView> {
    Seq::new(s.len(), |i: int| s[i].settled(status))
}

/// The mathematical value of a transfer queue.
pub struct TransferQueueView {
    pub entries: Seq<QueueEntryView>,
    pub aborted: bool,
    pub paused: bool,
    pub started_at: Option<i64>,
}

impl TransferQueueView {
    /// The entries are in order, and the counts of each agree with its status.
    pub open spec fn wf(self) -> bool {
        &&& ordered(self.entries)
        &&& forall|i: int| 0 <= i < self.entries.len() ==> (#[trigger] self.entries[i]).consistent()
    }

    /// The queue that holds nothing.
    pub open spec fn empty() -> TransferQueueView {
        TransferQueueView { entries: Seq::empty(), aborted: false, paused: false, started_at: None }
    }

    /// Bytes that the queue is expected to move in all.
    pub open spec fn bytes_total(self) -> nat {
        total(self.entries, Measure::Expected)
    }

    /// Bytes that the queue has moved.
    pub open spec fn bytes_done(self) -> nat {
        total(self.entries, Measure::Moved)
    }

    /// Entries that are to be copied or were copied.
    pub open spec fn file_total(self) -> nat {
        total(self.entries, Measure::Counted)
    }

    /// Entries that were copied.
    pub open spec fn file_done(self) -> nat {
        total(self.entries, Measure::Finished)
    }

    /// The number of entries that wait for the user's decision.
    pub open spec fn conflicts(self) -> nat {
        total(self.entries, Measure::Conflicts)
    }

    /// The index of the first entry that is not finished, or the length.
    pub open spec fn first_open(self) -> int {
        first_open_from(self.entries, 0)
    }

    /// The index of the first conflict, or the length.
    pub open spec fn first_conflict(self) -> int {
        first_conflict_from(self.entries, 0)
    }

    /// The index of the entry in flight.
    pub open spec fn active(self) -> Option<int> {
        let i = self.first_open();
        if i < self.entries.len() && self.entries[i].status is InProgress {
            Some(i)
        } else {
            None
        }
    }

    /// Every entry is finished.
    pub open spec fn complete(self) -> bool {
        forall|i: int| 0 <= i < self.entries.len() ==> (#[trigger] self.entries[i]).status.terminal()
    }

    /// The queue with other entries.
    pub open spec fn with_entries(self, entries: Seq<QueueEntryView>) -> TransferQueueView {
        TransferQueueView { entries, ..self }
    }

    /// The queue with a selection appended.
    pub open spec fn enqueue(
        self,
        selection: Seq<FileEntryView>,
        direction: Direction,
        dest_dir: Seq<Seq<char>>,
        existing: Seq<FileEntryView>,
    ) -> TransferQueueView {
        self.with_entries(self.entries + queued_all(selection, direction, dest_dir, existing))
    }

    /// The queue after the user stopped it: nothing more will start, and the
    /// conflicts that were still open are skipped.
    pub open spec fn abort(self) -> TransferQueueView {
        TransferQueueView {
            entries: settle_all(self.entries, EntryStatus::Skipped),
            aborted: true,
            ..self
        }
    }

    /// The queue after the user's answer to the first open conflict.
    pub open spec fn resolve(self, decision: Decision) -> TransferQueueView {
        let i = self.first_conflict();
        match decision {
            Decision::ReplaceThis => if i < self.entries.len() {
                self.with_entries(
                    self.entries.update(i, self.entries[i].with_status(EntryStatus::Pending)),
                )
            } else {
                self
            },
            Decision::SkipThis => if i < self.entries.len() {
                self.with_entries(
                    self.entries.update(i, self.entries[i].with_status(EntryStatus::Skipped)),
                )
            } else {
                self
            },
            Decision::ReplaceAll => self.with_entries(
                settle_all(self.entries, EntryStatus::Pending),
            ),
            Decision::SkipAll => self.with_entries(settle_all(self.entries, EntryStatus::Skipped)),
            Decision::Abort => self.abort(),
        }
    }

    /// What the executor asks for in this state.
    pub open spec fn next_action(self) -> TransferAction {
        let i = self.first_open();
        if self.aborted {
            TransferAction::Halted
        } else if self.paused {
            TransferAction::Paused
        } else if i >= self.entries.len() {
            TransferAction::Complete
        } else {
            match self.entries[i].status {
                EntryStatus::Conflict => TransferAction::AwaitDecision(i as usize),
                EntryStatus::Pending => match self.entries[i].kind {
                    TransferKind::File => TransferAction::CopyFile(i as usize),
                    TransferKind::Directory => TransferAction::ExpandDirectory(i as usize),
                },
                _ => TransferAction::Busy(i as usize),
            }
        }
    }

    /// The queue after the executor took its next step at the instant `now`: a
    /// pending entry at the front goes in flight; in every other state nothing
    /// changes.
    pub open spec fn start(self, now: i64) -> TransferQueueView {
        let i = self.first_open();
        match self.next_action() {
            TransferAction::CopyFile(_) | TransferAction::ExpandDirectory(_) => TransferQueueView {
                entries: self.entries.update(
                    i,
                    self.entries[i].with_status(EntryStatus::InProgress),
                ),
                started_at: if self.started_at is None {
                    Some(now)
                } else {
                    self.started_at
                },
                ..self
            },
            _ => self,
        }
    }

    /// The queue after a report that `written` bytes of the entry in flight are
    /// across.
    pub open spec fn progress(self, written: u64) -> TransferQueueView {
        match self.active() {
            Some(i) => self.with_entries(self.entries.update(i, self.entries[i].advanced(written))),
            None => self,
        }
    }

    /// The queue after the copy of the entry in flight ended. A lost connection
    /// pauses the queue.
    pub open spec fn finish(self, outcome: Outcome) -> TransferQueueView {
        match self.active() {
            Some(i) => match outcome {
                Outcome::Completed(bytes) => self.with_entries(
                    self.entries.update(i, self.entries[i].completed(bytes)),
                ),
                Outcome::Failed(reason) => TransferQueueView {
                    entries: self.entries.update(
                        i,
                        self.entries[i].with_status(EntryStatus::Failed(reason)),
                    ),
                    paused: self.paused || reason is ConnectionLost,
                    ..self
                },
            },
            None => self,
        }
    }

    /// The queue after the directory in flight was created at the destination
    /// and its source was listed: the directory is done, and its children join
    /// the end of the queue, each bound for its own name inside the directory.
    pub open spec fn expand(self, children: Seq<FileEntryView>) -> TransferQueueView {
        match self.active() {
            Some(i) => if self.entries[i].kind is Directory {
                self.with_entries(
                    self.entries.update(i, self.entries[i].completed(0)) + queued_all(
                        children,
                        self.entries[i].direction,
                        self.entries[i].dest_path,
                        Seq::empty(),
                    ),
                )
            } else {
                self
            },
            None => self,
        }
    }

    /// The queue after the connection came back.
    pub open spec fn resume(self) -> TransferQueueView {
        TransferQueueView { paused: false, ..self }
    }

    /// A fresh queue, unless an entry is in flight.
    pub open spec fn clear(self) -> TransferQueueView {
        if self.active() is None {
            TransferQueueView::empty()
        } else {
            self
        }
    }
}

/// The share of `total` that `done` makes, in whole hundredths rounded down. Of
/// nothing, all is done.
pub open spec fn percent(done: nat, total: nat) -> nat {
    if total == 0 {
        100
    } else {
        done * 100 / total
    }
}

} // verus!
