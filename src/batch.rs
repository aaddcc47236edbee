//! A synchronization pass over every configured repository, one after the
//! other, each carried to its outcome before the next begins.

use vstd::prelude::*;
use crate::config::RepositoryTarget;
use crate::machine::{action_of, begin, initial_state, next_state, step, SyncAction, SyncEvent, SyncState};
use crate::sync::{CommitId, SyncOutcome};

verus! {

/// Where a batch stands: the targets, the outcomes recorded so far (one per
/// finished target, in order) and the state of the target under way.
pub struct BatchRun {
    targets: Vec<RepositoryTarget>,
    outcomes: Vec<SyncOutcome>,
    state: SyncState<CommitId>,
}

/// The operation that the driver of a batch is to perform next.
#[derive(Debug)]
pub enum BatchAction {
    /// Perform `action` for the target at `index`.
    Repository { index: usize, action: SyncAction<CommitId> },
    /// Every target has its outcome.
    Complete,
}

impl BatchRun {
    /// The targets, in order.
    pub closed spec fn targets(&self) -> Seq<RepositoryTarget> {
        self.targets@
    }

    /// The outcomes recorded so far, in target order.
    pub closed spec fn outcomes(&self) -> Seq<SyncOutcome> {
        self.outcomes@
    }

    /// The state of the pass over the target under way.
    pub closed spec fn current(&self) -> SyncState<Seq<u8>> {
        self.state@
    }

    /// One outcome for each finished target; the target under way is never
    /// finished.
    pub closed spec fn wf(&self) -> bool {
        &&& self.outcomes@.len() <= self.targets@.len()
        &&& !(self.state@ is Done)
    }

    /// Index of the target under way.
    pub open spec fn position(&self) -> int {
        self.outcomes().len() as int
    }

    /// Whether every target has its outcome.
    pub open spec fn complete(&self) -> bool {
        self.position() == self.targets().len()
    }

    /// A batch over `targets`, with the first target at its initial state.
    pub fn new(targets: Vec<RepositoryTarget>) -> (r: BatchRun)
        ensures
            r.wf(),
            r.targets() == targets@,
            r.outcomes() == Seq::<SyncOutcome>::empty(),
            r.current() == initial_state(),
    {
        BatchRun { targets, outcomes: Vec::new(), state: begin() }
    }

    /// The target under way, if any.
    pub fn current_target(&self) -> (r: Option<&RepositoryTarget>)
        requires
            self.wf(),
        ensures
            self.complete() ==> r is None,
            !self.complete() ==> r == Some(&self.targets()[self.position()]),
    {
        let i = self.outcomes.len();
        if i < self.targets.len() {
            Some(&self.targets[i])
        } else {
            None
        }
    }

    /// The next operation: the current target's action, or `Complete`.
    pub fn next_action(&self) -> (r: BatchAction)
        requires
            self.wf(),
        ensures
            self.complete() ==> r is Complete,
            !self.complete() ==> (r matches BatchAction::Repository { index, action } && index
                == self.position() && action@ == action_of(self.current())),
    {
        let i = self.outcomes.len();
        if i < self.targets.len() {
            BatchAction::Repository { index: i, action: self.state.action() }
        } else {
            BatchAction::Complete
        }
    }

    /// Hands `event` to the pass under way. When that pass ends, its outcome is
    /// recorded and returned, and the next target starts from the initial
    /// state whatever that outcome was. Once complete, the batch ignores
    /// events.
    pub fn handle(&mut self, event: SyncEvent<CommitId>) -> (r: Option<SyncOutcome>)
        requires
            old(self).wf(),
        ensures
            final(self).wf(),
            final(self).targets() == old(self).targets(),
            old(self).complete() ==> r is None && final(self).outcomes() == old(self).outcomes()
                && final(self).current() == old(self).current(),
            !old(self).complete() ==> match next_state(old(self).current(), event@) {
                SyncState::Done(o) => {
                    &&& r == Some(o)
                    &&& final(self).outcomes() == old(self).outcomes().push(o)
                    &&& final(self).current() == initial_state()
                },
                s => {
                    &&& r is None
                    &&& final(self).outcomes() == old(self).outcomes()
                    &&& final(self).current() == s
                },
            },
    {
        if self.outcomes.len() >= self.targets.len() {
            return None;
        }
        let mut state = begin();
        std::mem::swap(&mut self.state, &mut state);
        let next = step(state, event);
        match next.outcome() {
            Some(o) => {
                self.outcomes.push(o);
                Some(o)
            },
            None => {
                self.state = next;
                None
            },
        }
    }

    /// The outcomes recorded so far, in target order.
    pub fn outcomes_so_far(&self) -> (r: &Vec<SyncOutcome>)
        ensures
            r@ == self.outcomes(),
    {
        &self.outcomes
    }
}

} // verus!
