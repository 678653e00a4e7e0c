//! Follow-up actions that wait for a step of the user or of the remote side.

use crate::browser::Side;
use crate::path::AbsPath;
use vstd::prelude::*;

verus! {

/// What is put off, and until when.
#[derive(Debug)]
pub enum PendingStep {
    /// Once the directory exists on the given side, enter it there.
    MakeDirectoryThen { side: Side, path: AbsPath },
    /// Once the user has answered for the queue entry at the index, go on
    /// with the transfers.
    AwaitConflictResolutionThen { index: usize },
}

/// The mathematical value of a [`PendingStep`].
pub enum PendingStepView {
    MakeDirectoryThen { side: Side, path: Seq<Seq<char>> },
    AwaitConflictResolutionThen { index: usize },
}

impl View for PendingStep {
    type V = PendingStepView;

    open spec fn view(&self) -> PendingStepView {
        match self {
            PendingStep::MakeDirectoryThen { side, path } => PendingStepView::MakeDirectoryThen {
                side: *side,
                path: path@,
            },
            PendingStep::AwaitConflictResolutionThen {
                index,
            } => PendingStepView::AwaitConflictResolutionThen { index: *index },
        }
    }
}

/// One put-off step. Steps that spring from one action of the user share their
/// `chain`.
#[derive(Debug)]
pub struct PendingAction {
    pub chain: u64,
    pub step: PendingStep,
}

/// The mathematical value of a [`PendingAction`].
pub struct PendingActionView {
    pub chain: u64,
    pub step: PendingStepView,
}

impl View for PendingAction {
    type V = PendingActionView;

    open spec fn view(&self) -> PendingActionView {
        PendingActionView { chain: self.chain, step: self.step@ }
    }
}

/// What draining the head of the queue brought.
#[derive(Debug)]
pub enum Drained {
    /// The head was due: it left the queue and is to be carried out.
    Run(PendingAction),
    /// The head failed: it left the queue together with all that followed it
    /// in its chain, `dropped` steps in all.
    Dropped { chain: u64, dropped: usize },
}

/// The steps of `actions` that do not belong to `chain`, in their order.
pub open spec fn without_chain(actions: Seq<PendingActionView>, chain: u64) -> Seq<
    PendingActionView,
>
    decreases actions.len(),
{
    if actions.len() == 0 {
        actions
    } else if actions.last().chain == chain {
        without_chain(actions.drop_last(), chain)
    } else {
        without_chain(actions.drop_last(), chain).push(actions.last())
    }
}

/// The steps of `actions` that belong to `chain`, in their order.
pub open spec fn only_chain(actions: Seq<PendingActionView>, chain: u64) -> Seq<PendingActionView>
    decreases actions.len(),
{
    if actions.len() == 0 {
        actions
    } else if actions.last().chain == chain {
        only_chain(actions.drop_last(), chain).push(actions.last())
    } else {
        only_chain(actions.drop_last(), chain)
    }
}

/// The queue after its head was drained: without the head where it was due,
/// without the head's whole chain where it failed.
pub open spec fn drained(actions: Seq<PendingActionView>, met: bool) -> Seq<PendingActionView> {
    if actions.len() == 0 {
        actions
    } else if met {
        actions.drop_first()
    } else {
        without_chain(actions, actions[0].chain)
    }
}

/// Nothing of a dropped chain is left in the queue, and nothing else is lost:
/// the steps that stay and the steps of the chain make up the queue as it was.
pub proof fn theorem_dropped_chain_is_gone(actions: Seq<PendingActionView>, chain: u64)
    ensures
        without_chain(actions, chain).len() <= actions.len(),
        forall|i: int|
            0 <= i < without_chain(actions, chain).len() ==> (#[trigger] without_chain(
                actions,
                chain,
            )[i]).chain != chain,
        without_chain(actions, chain).len() + only_chain(actions, chain).len() == actions.len(),
    decreases actions.len(),
{
    if actions.len() > 0 {
        theorem_dropped_chain_is_gone(actions.drop_last(), chain);
    }
}

/// Dropping one chain leaves every other chain as it was: the same steps in the
/// same order.
pub proof fn theorem_failure_spares_other_chains(
    actions: Seq<PendingActionView>,
    failed: u64,
    other: u64,
)
    requires
        other != failed,
    ensures
        only_chain(without_chain(actions, failed), other) == only_chain(actions, other),
        only_chain(without_chain(actions, failed), failed).len() == 0,
    decreases actions.len(),
{
    if actions.len() > 0 {
        theorem_failure_spares_other_chains(actions.drop_last(), failed, other);
        let rest = without_chain(actions.drop_last(), failed);
        if actions.last().chain != failed {
            assert(rest.push(actions.last()).drop_last() =~= rest);
        }
    }
}

/// Steps leave the queue in the order in which they came: what was pushed
/// behind a queue comes out after everything that queue held.
pub proof fn theorem_first_in_first_out(actions: Seq<PendingActionView>, action: PendingActionView)
    ensures
        actions.len() > 0 ==> drained(actions.push(action), true) == drained(actions, true).push(
            action,
        ),
        actions.len() > 0 ==> actions.push(action)[0] == actions[0],
        actions.len() == 0 ==> actions.push(action)[0] == action && drained(
            actions.push(action),
            true,
        ) == actions,
{
    if actions.len() > 0 {
        assert(actions.push(action).drop_first() =~= actions.drop_first().push(action));
    } else {
        assert(actions.push(action).drop_first() =~= actions);
    }
}

/// The put-off steps, first in, first out.
#[derive(Debug)]
pub struct PendingQueue {
    actions: Vec<PendingAction>,
}

/// The values of the steps, in order.
pub open spec fn action_views(actions: Seq<PendingAction>) -> Seq<PendingActionView> {
    actions.map_values(|a: PendingAction| a@)
}

impl View for PendingQueue {
    type V = Seq<PendingActionView>;

    closed spec fn view(&self) -> Seq<PendingActionView> {
        action_views(self.actions@)
    }
}

impl PendingQueue {
    /// An empty queue.
    pub fn new() -> (queue: PendingQueue)
        ensures
            queue@ == Seq::<PendingActionView>::empty(),
    {
        let queue = PendingQueue { actions: Vec::new() };
        assert(queue@ =~= Seq::<PendingActionView>::empty());
        queue
    }

    /// The number of steps that wait.
    pub fn len(&self) -> (n: usize)
        ensures
            n == self@.len(),
    {
        self.actions.len()
    }

    /// The step that is next in line.
    pub fn head(&self) -> (action: Option<&PendingAction>)
        ensures
            self@.len() == 0 ==> action is None,
            self@.len() > 0 ==> action is Some && action->0@ == self@[0],
    {
        if self.actions.len() == 0 {
            None
        } else {
            Some(&self.actions[0])
        }
    }

    /// Appends a step at the tail.
    pub fn push(&mut self, action: PendingAction)
        ensures
            final(self)@ == old(self)@.push(action@),
    {
        self.actions.push(action);
        assert(self@ =~= old(self)@.push(action@));
    }

    /// Drains the head. Where its condition is `met`, the head leaves the queue
    /// and is handed out to be carried out. Where it is not, the head has
    /// failed: it is dropped with every step of its chain, and the steps of
    /// other chains stay as they are. An empty queue gives nothing.
    pub fn drain_one(&mut self, met: bool) -> (result: Option<Drained>)
        ensures
            final(self)@ == drained(old(self)@, met),
            match result {
                None => old(self)@.len() == 0,
                Some(Drained::Run(action)) => old(self)@.len() > 0 && met && action@ == old(self)@[0],
                Some(Drained::Dropped { chain, dropped }) => old(self)@.len() > 0 && !met && chain
                    == old(self)@[0].chain && dropped == old(self)@.len() - final(self)@.len(),
            },
    {
        if self.actions.len() == 0 {
            return None;
        }
        let ghost before = self@;
        if met {
            let action = self.actions.remove(0);
            assert(self@ =~= before.drop_first());
            return Some(Drained::Run(action));
        }
        let chain = self.actions[0].chain;
        let mut all: Vec<PendingAction> = Vec::new();
        std::mem::swap(&mut self.actions, &mut all);
        let mut dropped: usize = 0;
        let total = all.len();
        for action in it: all
            invariant
                total == before.len(),
                it.index() <= total,
                action_views(it.seq()) == before,
                action_views(self.actions@) == without_chain(before.take(it.index() as int), chain),
                dropped + self.actions.len() == it.index(),
        {
            proof {
                assert(action@ == before[it.index() as int]);
                assert(before.take(it.index() + 1).drop_last() =~= before.take(it.index() as int));
            }
            if action.chain == chain {
                dropped += 1;
            } else {
                let ghost was = self.actions@;
                self.actions.push(action);
                assert(action_views(self.actions@) =~= action_views(was).push(action@));
            }
        }
        proof {
            assert(before.take(before.len() as int) =~= before);
        }
        Some(Drained::Dropped { chain, dropped })
    }
}

} // verus!
