//! What holds of the transfer queue along every course of events.

use crate::entry::FileEntryView;
use crate::transfer::lemmas::{
    lemma_abort_wf, lemma_done_within_total, lemma_enqueue_wf,
    lemma_expand_wf, lemma_finish_wf, lemma_first_conflict_from, lemma_first_open_from,
    lemma_progress_wf, lemma_resolve_wf, lemma_start_wf, lemma_total_bound, lemma_totals_reached,
};
use crate::transfer::model::{
    weigh, Decision, Direction, EntryStatus, Measure, Outcome, TransferAction, TransferQueueView,
};
use vstd::prelude::*;

verus! {

/// One event in the life of a queue.
pub enum Step {
    Enqueue {
        selection: Seq<FileEntryView>,
        direction: Direction,
        dest_dir: Seq<Seq<char>>,
        existing: Seq<FileEntryView>,
    },
    Resolve(Decision),
    Abort,
    Start(i64),
    Progress(u64),
    Finish(Outcome),
    Expand(Seq<FileEntryView>),
    Resume,
    Clear,
}

impl Step {
    /// The step belongs to the executor: it starts an entry, moves it on or
    /// closes it.
    pub open spec fn is_tick(self) -> bool {
        self is Start || self is Progress || self is Finish || self is Expand
    }
}

/// The queue after one event.
pub open spec fn apply(q: TransferQueueView, step: Step) -> TransferQueueView {
    match step {
        Step::Enqueue { selection, direction, dest_dir, existing } => q.enqueue(
            selection,
            direction,
            dest_dir,
            existing,
        ),
        Step::Resolve(decision) => q.resolve(decision),
        Step::Abort => q.abort(),
        Step::Start(now) => q.start(now),
        Step::Progress(written) => q.progress(written),
        Step::Finish(outcome) => q.finish(outcome),
        Step::Expand(children) => q.expand(children),
        Step::Resume => q.resume(),
        Step::Clear => q.clear(),
    }
}

/// The queue after a course of events.
pub open spec fn run(q: TransferQueueView, steps: Seq<Step>) -> TransferQueueView
    decreases steps.len(),
{
    if steps.len() == 0 {
        q
    } else {
        apply(run(q, steps.drop_last()), steps.last())
    }
}

/// Every event leaves a well-formed queue well-formed.
pub proof fn theorem_step_keeps_order(q: TransferQueueView, step: Step)
    requires
        q.wf(),
    ensures
        apply(q, step).wf(),
{
    match step {
        Step::Enqueue { selection, direction, dest_dir, existing } => {
            lemma_enqueue_wf(q, selection, direction, dest_dir, existing);
        },
        Step::Resolve(decision) => {
            lemma_resolve_wf(q, decision);
        },
        Step::Abort => {
            lemma_abort_wf(q);
        },
        Step::Start(now) => {
            lemma_start_wf(q, now);
        },
        Step::Progress(written) => {
            lemma_progress_wf(q, written);
        },
        Step::Finish(outcome) => {
            lemma_finish_wf(q, outcome);
        },
        Step::Expand(children) => {
            lemma_expand_wf(q, children);
        },
        Step::Resume => {},
        Step::Clear => {},
    }
}

/// Whatever is enqueued, decided and executed, starting from an empty queue:
/// after every event the bytes moved do not exceed the bytes expected, and the
/// entries copied do not exceed the entries counted.
pub proof fn theorem_done_never_exceeds_total(steps: Seq<Step>)
    ensures
        run(TransferQueueView::empty(), steps).wf(),
        run(TransferQueueView::empty(), steps).bytes_done() <= run(
            TransferQueueView::empty(),
            steps,
        ).bytes_total(),
        run(TransferQueueView::empty(), steps).file_done() <= run(
            TransferQueueView::empty(),
            steps,
        ).file_total(),
    decreases steps.len(),
{
    if steps.len() > 0 {
        theorem_done_never_exceeds_total(steps.drop_last());
        theorem_step_keeps_order(run(TransferQueueView::empty(), steps.drop_last()), steps.last());
    }
    lemma_done_within_total(run(TransferQueueView::empty(), steps));
}

/// Once every entry is finished, both counters have reached their totals.
pub proof fn theorem_totals_reached_on_completion(steps: Seq<Step>)
    requires
        run(TransferQueueView::empty(), steps).complete(),
    ensures
        run(TransferQueueView::empty(), steps).bytes_done() == run(
            TransferQueueView::empty(),
            steps,
        ).bytes_total(),
        run(TransferQueueView::empty(), steps).file_done() == run(
            TransferQueueView::empty(),
            steps,
        ).file_total(),
{
    theorem_done_never_exceeds_total(steps);
    lemma_totals_reached(run(TransferQueueView::empty(), steps));
}

/// An aborted queue starts nothing: the executor is told to halt, and its step
/// changes nothing.
pub proof fn theorem_aborted_queue_halts(q: TransferQueueView, now: i64)
    ensures
        q.abort().next_action() == TransferAction::Halted,
        q.abort().start(now) == q.abort(),
{
}

/// After an abort and one more step of the executor, every entry behind the one
/// that was in flight is pending or skipped: none was started, none is done.
/// Where no entry was in flight, this holds of every entry that was not
/// finished.
pub proof fn theorem_abort_spares_the_rest(q: TransferQueueView, tick: Step, j: int)
    requires
        q.wf(),
        tick.is_tick(),
        q.first_open() <= j < apply(q.abort(), tick).entries.len(),
        q.active() != Some(j),
    ensures
        apply(q.abort(), tick).entries[j].status is Pending || apply(
            q.abort(),
            tick,
        ).entries[j].status is Skipped,
{
    let a = q.abort();
    lemma_abort_wf(q);
    lemma_first_open_from(q.entries, 0);
    lemma_first_open_from(a.entries, 0);
    let f = q.first_open();
    // Behind the first open entry of `q` everything waits, and the abort turned
    // the conflicts among them into skipped entries.
    assert forall|k: int| f <= k < q.entries.len() && q.active() != Some(k) implies (
    #[trigger] a.entries[k]).status is Pending || a.entries[k].status is Skipped by {
        if k > f {
            assert(!q.entries[f].status.terminal());
            assert(q.entries[k].status.waiting());
        }
    }
    // The first open entry of the aborted queue is the one in flight, if any.
    if q.active() is Some {
        assert(a.entries[f].status is InProgress);
        assert(a.first_open() == f);
    } else {
        if a.first_open() < a.entries.len() {
            assert(a.entries[a.first_open()].status is Pending);
        }
        assert(a.active() is None);
    }
}

/// A finished entry is never touched again, whatever happens to the queue short
/// of clearing it.
pub proof fn theorem_finished_entries_stay(q: TransferQueueView, step: Step, i: int)
    requires
        q.wf(),
        !(step is Clear),
        0 <= i < q.entries.len(),
        q.entries[i].status.terminal(),
    ensures
        i < apply(q, step).entries.len(),
        apply(q, step).entries[i] == q.entries[i],
{
    lemma_first_open_from(q.entries, 0);
    lemma_first_conflict_from(q.entries, 0);
}

/// A finished entry stays as it is along every course of events that does not
/// clear the queue.
pub proof fn theorem_finished_entries_stay_for_good(q: TransferQueueView, steps: Seq<Step>, i: int)
    requires
        q.wf(),
        forall|k: int| 0 <= k < steps.len() ==> !(#[trigger] steps[k] is Clear),
        0 <= i < q.entries.len(),
        q.entries[i].status.terminal(),
    ensures
        run(q, steps).wf(),
        i < run(q, steps).entries.len(),
        run(q, steps).entries[i] == q.entries[i],
    decreases steps.len(),
{
    if steps.len() > 0 {
        let before = steps.drop_last();
        assert forall|k: int| 0 <= k < before.len() implies !(#[trigger] before[k] is Clear) by {
            assert(before[k] == steps[k]);
        }
        theorem_finished_entries_stay_for_good(q, before, i);
        assert(!(steps[steps.len() - 1] is Clear));
        theorem_step_keeps_order(run(q, before), steps.last());
        theorem_finished_entries_stay(run(q, before), steps.last(), i);
    }
}

/// Replacing all settles every conflict at once: each becomes pending, every
/// other entry stays as it is, and no conflict is left to ask about.
pub proof fn theorem_replace_all_settles_every_conflict(q: TransferQueueView)
    ensures
        q.resolve(Decision::ReplaceAll).entries.len() == q.entries.len(),
        q.resolve(Decision::ReplaceAll).conflicts() == 0,
        forall|i: int|
            0 <= i < q.entries.len() ==> #[trigger] q.resolve(Decision::ReplaceAll).entries[i] == (
            if q.entries[i].status is Conflict {
                q.entries[i].with_status(EntryStatus::Pending)
            } else {
                q.entries[i]
            }),
{
    let r = q.resolve(Decision::ReplaceAll);
    lemma_total_bound(r.entries, Measure::Conflicts, 0);
}

/// Skipping all settles every conflict at once: each becomes skipped, every
/// other entry stays as it is, and no conflict is left to ask about.
pub proof fn theorem_skip_all_settles_every_conflict(q: TransferQueueView)
    ensures
        q.resolve(Decision::SkipAll).entries.len() == q.entries.len(),
        q.resolve(Decision::SkipAll).conflicts() == 0,
        forall|i: int|
            0 <= i < q.entries.len() ==> #[trigger] q.resolve(Decision::SkipAll).entries[i] == (
            if q.entries[i].status is Conflict {
                q.entries[i].with_status(EntryStatus::Skipped)
            } else {
                q.entries[i]
            }),
{
    let r = q.resolve(Decision::SkipAll);
    lemma_total_bound(r.entries, Measure::Conflicts, 0);
}

/// No byte is ever moved for a conflict that was skipped with all the others:
/// along every later course of events that does not clear the queue, the entry
/// stays skipped with nothing transferred.
pub proof fn theorem_skipped_conflicts_move_nothing(q: TransferQueueView, steps: Seq<Step>, i: int)
    requires
        q.wf(),
        forall|k: int| 0 <= k < steps.len() ==> !(#[trigger] steps[k] is Clear),
        0 <= i < q.entries.len(),
        q.entries[i].status is Conflict,
    ensures
        i < run(q.resolve(Decision::SkipAll), steps).entries.len(),
        run(q.resolve(Decision::SkipAll), steps).entries[i].status is Skipped,
        run(q.resolve(Decision::SkipAll), steps).entries[i].transferred == 0,
        weigh(Measure::Expected, run(q.resolve(Decision::SkipAll), steps).entries[i]) == 0,
{
    let r = q.resolve(Decision::SkipAll);
    lemma_resolve_wf(q, Decision::SkipAll);
    assert(q.entries[i].consistent());
    assert(r.entries[i] == q.entries[i].with_status(EntryStatus::Skipped));
    theorem_finished_entries_stay_for_good(r, steps, i);
}

} // verus!
