//! The per-repository synchronization state machine.
//!
//! The machine holds every decision of one pass over one repository; the
//! program that drives it performs the operation that `action` names and hands
//! back what came of it as an event. An event that does not answer the
//! current action leaves the state as it is, so the same action is asked for
//! again.

use vstd::prelude::*;
use crate::sync::{
    ancestry_relation, cause_of, classify, fault_cause, fetched_nothing_new, relation_of,
    synchronize_verdict, verdict_of, CommitId, DivergenceVerdict, FailureCause, FetchVerdict,
    RepoFault, SkipReason, SyncOutcome,
};

verus! {

/// Seconds to wait before probing the network again after a failed probe.
pub const RETRY_DELAY_SECS: u64 = 3;

/// Where a pass over one repository stands.
#[derive(Debug)]
pub enum SyncState<C> {
    /// The configured path is being looked up on disk.
    CheckingPath,
    /// Waiting for the network before fetching; `retry` after a failed probe.
    AwaitingNetwork { retry: bool },
    /// The branch is being fetched from `origin`.
    Synchronizing,
    /// The remote has moved to `remote`; the local tip is read again and compared.
    Classifying { remote: C },
    /// The branch reference is being moved to `target`.
    UpdatingReference { target: C },
    /// The working tree is being forced to match `target`.
    CheckingOut { target: C },
    /// The pass is over.
    Done(SyncOutcome),
}

/// The operation that the driver is to perform next.
#[derive(Debug)]
pub enum SyncAction<C> {
    /// Report whether the configured path exists.
    CheckPath,
    /// Wait `delay_secs` seconds, then report whether the network is reachable.
    ProbeNetwork { delay_secs: u64 },
    /// Open the repository, fetch the branch from `origin`, and report the
    /// local tip, the fetched tip and their strict ancestry.
    Fetch,
    /// Read the local tip again and report its strict ancestry to `remote`.
    Compare { remote: C },
    /// Set the branch reference to `target`.
    UpdateReference { target: C },
    /// Force every tracked file of the working tree to match `target`.
    Checkout { target: C },
    /// Record the outcome; nothing more is to be done for this repository.
    Finish(SyncOutcome),
}

/// What came of the last action.
#[derive(Debug)]
pub enum SyncEvent<C> {
    PathChecked { exists: bool },
    NetworkProbed { reachable: bool },
    /// `local_is_ancestor`: `local` is a strict ancestor of `remote`;
    /// `remote_is_ancestor`: `remote` is a strict ancestor of `local`.
    Fetched { local: C, remote: C, local_is_ancestor: bool, remote_is_ancestor: bool },
    FetchFailed(RepoFault),
    /// The ancestry answers relate `local` to the remote tip of the action.
    Compared { local: C, local_is_ancestor: bool, remote_is_ancestor: bool },
    CompareFailed(RepoFault),
    ReferenceUpdated { ok: bool },
    CheckedOut { ok: bool },
}

impl<C: View> View for SyncState<C> {
    type V = SyncState<C::V>;

    open spec fn view(&self) -> SyncState<C::V> {
        match self {
            SyncState::CheckingPath => SyncState::CheckingPath,
            SyncState::AwaitingNetwork { retry } => SyncState::AwaitingNetwork { retry: *retry },
            SyncState::Synchronizing => SyncState::Synchronizing,
            SyncState::Classifying { remote } => SyncState::Classifying { remote: remote@ },
            SyncState::UpdatingReference { target } => SyncState::UpdatingReference {
                target: target@,
            },
            SyncState::CheckingOut { target } => SyncState::CheckingOut { target: target@ },
            SyncState::Done(o) => SyncState::Done(*o),
        }
    }
}

impl<C: View> View for SyncAction<C> {
    type V = SyncAction<C::V>;

    open spec fn view(&self) -> SyncAction<C::V> {
        match self {
            SyncAction::CheckPath => SyncAction::CheckPath,
            SyncAction::ProbeNetwork { delay_secs } => SyncAction::ProbeNetwork {
                delay_secs: *delay_secs,
            },
            SyncAction::Fetch => SyncAction::Fetch,
            SyncAction::Compare { remote } => SyncAction::Compare { remote: remote@ },
            SyncAction::UpdateReference { target } => SyncAction::UpdateReference {
                target: target@,
            },
            SyncAction::Checkout { target } => SyncAction::Checkout { target: target@ },
            SyncAction::Finish(o) => SyncAction::Finish(*o),
        }
    }
}

impl<C: View> View for SyncEvent<C> {
    type V = SyncEvent<C::V>;

    open spec fn view(&self) -> SyncEvent<C::V> {
        match self {
            SyncEvent::PathChecked { exists } => SyncEvent::PathChecked { exists: *exists },
            SyncEvent::NetworkProbed { reachable } => SyncEvent::NetworkProbed {
                reachable: *reachable,
            },
            SyncEvent::Fetched { local, remote, local_is_ancestor, remote_is_ancestor } =>
                SyncEvent::Fetched {
                local: local@,
                remote: remote@,
                local_is_ancestor: *local_is_ancestor,
                remote_is_ancestor: *remote_is_ancestor,
            },
            SyncEvent::FetchFailed(f) => SyncEvent::FetchFailed(*f),
            SyncEvent::Compared { local, local_is_ancestor, remote_is_ancestor } =>
                SyncEvent::Compared {
                local: local@,
                local_is_ancestor: *local_is_ancestor,
                remote_is_ancestor: *remote_is_ancestor,
            },
            SyncEvent::CompareFailed(f) => SyncEvent::CompareFailed(*f),
            SyncEvent::ReferenceUpdated { ok } => SyncEvent::ReferenceUpdated { ok: *ok },
            SyncEvent::CheckedOut { ok } => SyncEvent::CheckedOut { ok: *ok },
        }
    }
}

/// The state in which every pass starts.
pub open spec fn initial_state() -> SyncState<Seq<u8>> {
    SyncState::CheckingPath
}

/// The operation asked for in state `s`.
pub open spec fn action_of(s: SyncState<Seq<u8>>) -> SyncAction<Seq<u8>> {
    match s {
        SyncState::CheckingPath => SyncAction::CheckPath,
        SyncState::AwaitingNetwork { retry } => SyncAction::ProbeNetwork {
            delay_secs: if retry { RETRY_DELAY_SECS } else { 0 },
        },
        SyncState::Synchronizing => SyncAction::Fetch,
        SyncState::Classifying { remote } => SyncAction::Compare { remote },
        SyncState::UpdatingReference { target } => SyncAction::UpdateReference { target },
        SyncState::CheckingOut { target } => SyncAction::Checkout { target },
        SyncState::Done(o) => SyncAction::Finish(o),
    }
}

/// The state after event `e` in state `s`.
pub open spec fn next_state(s: SyncState<Seq<u8>>, e: SyncEvent<Seq<u8>>) -> SyncState<
    Seq<u8>,
> {
    match (s, e) {
        (SyncState::CheckingPath, SyncEvent::PathChecked { exists }) => if exists {
            SyncState::AwaitingNetwork { retry: false }
        } else {
            SyncState::Done(SyncOutcome::Skipped(SkipReason::PathNotFound))
        },
        (SyncState::AwaitingNetwork { .. }, SyncEvent::NetworkProbed { reachable }) =>
            if reachable {
            SyncState::Synchronizing
        } else {
            SyncState::AwaitingNetwork { retry: true }
        },
        (
            SyncState::Synchronizing,
            SyncEvent::Fetched { local, remote, local_is_ancestor, remote_is_ancestor },
        ) => if fetched_nothing_new(
            relation_of(local, remote, local_is_ancestor, remote_is_ancestor),
        ) {
            SyncState::Done(SyncOutcome::NoUpdate)
        } else {
            SyncState::Classifying { remote }
        },
        (SyncState::Synchronizing, SyncEvent::FetchFailed(f)) => SyncState::Done(
            SyncOutcome::Failed(cause_of(f)),
        ),
        (
            SyncState::Classifying { remote },
            SyncEvent::Compared { local, local_is_ancestor, remote_is_ancestor },
        ) => match verdict_of(
            relation_of(local, remote, local_is_ancestor, remote_is_ancestor),
            remote,
        ) {
            DivergenceVerdict::UpToDate => SyncState::Done(SyncOutcome::NoUpdate),
            DivergenceVerdict::FastForward(t) => SyncState::UpdatingReference { target: t },
            DivergenceVerdict::Diverged => SyncState::Done(
                SyncOutcome::Skipped(SkipReason::NonFastForward),
            ),
        },
        (SyncState::Classifying { .. }, SyncEvent::CompareFailed(f)) => SyncState::Done(
            SyncOutcome::Failed(cause_of(f)),
        ),
        (SyncState::UpdatingReference { target }, SyncEvent::ReferenceUpdated { ok }) => if ok {
            SyncState::CheckingOut { target }
        } else {
            SyncState::Done(SyncOutcome::Failed(FailureCause::ReferenceUpdateConflict))
        },
        (SyncState::CheckingOut { .. }, SyncEvent::CheckedOut { ok }) => if ok {
            SyncState::Done(SyncOutcome::Updated)
        } else {
            SyncState::Done(SyncOutcome::Failed(FailureCause::CheckoutFailure))
        },
        _ => s,
    }
}

/// Starts a pass over one repository.
pub fn begin() -> (r: SyncState<CommitId>)
    ensures
        r@ == initial_state(),
{
    SyncState::CheckingPath
}

impl SyncState<CommitId> {
    /// The operation that the driver is to perform in this state.
    pub fn action(&self) -> (r: SyncAction<CommitId>)
        ensures
            r@ == action_of(self@),
    {
        match self {
            SyncState::CheckingPath => SyncAction::CheckPath,
            SyncState::AwaitingNetwork { retry } => SyncAction::ProbeNetwork {
                delay_secs: if *retry { RETRY_DELAY_SECS } else { 0 },
            },
            SyncState::Synchronizing => SyncAction::Fetch,
            SyncState::Classifying { remote } => SyncAction::Compare { remote: remote.duplicate() },
            SyncState::UpdatingReference { target } => SyncAction::UpdateReference {
                target: target.duplicate(),
            },
            SyncState::CheckingOut { target } => SyncAction::Checkout { target: target.duplicate() },
            SyncState::Done(o) => SyncAction::Finish(*o),
        }
    }

    /// Whether the pass is over, and with which outcome.
    pub fn outcome(&self) -> (r: Option<SyncOutcome>)
        ensures
            r == (match self@ {
                SyncState::Done(o) => Some(o),
                _ => None,
            }),
    {
        match self {
            SyncState::Done(o) => Some(*o),
            _ => None,
        }
    }
}

/// The state after `event` in state `state`.
pub fn step(state: SyncState<CommitId>, event: SyncEvent<CommitId>) -> (r: SyncState<CommitId>)
    ensures
        r@ == next_state(state@, event@),
{
    match (state, event) {
        (SyncState::CheckingPath, SyncEvent::PathChecked { exists }) => if exists {
            SyncState::AwaitingNetwork { retry: false }
        } else {
            SyncState::Done(SyncOutcome::Skipped(SkipReason::PathNotFound))
        },
        (SyncState::AwaitingNetwork { .. }, SyncEvent::NetworkProbed { reachable }) =>
            if reachable {
            SyncState::Synchronizing
        } else {
            SyncState::AwaitingNetwork { retry: true }
        },
        (
            SyncState::Synchronizing,
            SyncEvent::Fetched { local, remote, local_is_ancestor, remote_is_ancestor },
        ) => match synchronize_verdict(&local, remote, local_is_ancestor, remote_is_ancestor) {
            FetchVerdict::UpToDate => SyncState::Done(SyncOutcome::NoUpdate),
            FetchVerdict::UpdatesAvailable(remote) => SyncState::Classifying { remote },
        },
        (SyncState::Synchronizing, SyncEvent::FetchFailed(f)) => SyncState::Done(
            SyncOutcome::Failed(fault_cause(f)),
        ),
        (
            SyncState::Classifying { remote },
            SyncEvent::Compared { local, local_is_ancestor, remote_is_ancestor },
        ) => {
            let relation = ancestry_relation(&local, &remote, local_is_ancestor, remote_is_ancestor);
            match classify(&local, &remote, relation) {
                DivergenceVerdict::UpToDate => SyncState::Done(SyncOutcome::NoUpdate),
                DivergenceVerdict::FastForward(t) => SyncState::UpdatingReference { target: t },
                DivergenceVerdict::Diverged => SyncState::Done(
                    SyncOutcome::Skipped(SkipReason::NonFastForward),
                ),
            }
        },
        (SyncState::Classifying { .. }, SyncEvent::CompareFailed(f)) => SyncState::Done(
            SyncOutcome::Failed(fault_cause(f)),
        ),
        (SyncState::UpdatingReference { target }, SyncEvent::ReferenceUpdated { ok }) => if ok {
            SyncState::CheckingOut { target }
        } else {
            SyncState::Done(SyncOutcome::Failed(FailureCause::ReferenceUpdateConflict))
        },
        (SyncState::CheckingOut { .. }, SyncEvent::CheckedOut { ok }) => if ok {
            SyncState::Done(SyncOutcome::Updated)
        } else {
            SyncState::Done(SyncOutcome::Failed(FailureCause::CheckoutFailure))
        },
        (s, _) => s,
    }
}

} // verus!
