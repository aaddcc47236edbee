//! A model of one configured repository and its remote, answering the
//! machine's actions as the repository operations do, and the laws of a
//! synchronization pass proved over it.

use vstd::prelude::*;
use crate::machine::{action_of, initial_state, next_state, SyncAction, SyncEvent, SyncState};
use crate::sync::{
    relation_of, verdict_of, AncestryRelation, DivergenceVerdict, FailureCause, RepoFault,
    SkipReason, SyncOutcome,
};

verus! {

/// One configured repository as the operations see it.
pub struct RepoWorld {
    /// A folder exists at the configured path.
    pub path_exists: bool,
    /// That folder holds a repository with an `origin` remote.
    pub is_repository: bool,
    /// Fetching from `origin` succeeds.
    pub remote_reachable: bool,
    /// Tip of the local branch; `None` when the branch is missing.
    pub local: Option<Seq<u8>>,
    /// Tip of the branch on `origin`; `None` when the branch is missing there.
    pub remote: Option<Seq<u8>>,
    /// The commit that the tracked files of the working tree match; `None`
    /// while they hold changes of their own.
    pub tree: Option<Seq<u8>>,
    /// Strict ancestry in the commit graph: `ancestor(a, b)` when `a` is an
    /// ancestor of `b` other than `b` itself.
    pub ancestor: spec_fn(Seq<u8>, Seq<u8>) -> bool,
    /// Moving the branch reference succeeds.
    pub reference_writable: bool,
    /// Writing the working tree succeeds.
    pub tree_writable: bool,
}

/// The event with which the repository answers `a`, and the repository after
/// it. Network probes are answered as reachable: the wait for the network is
/// taken to end.
pub open spec fn respond(w: RepoWorld, a: SyncAction<Seq<u8>>) -> (SyncEvent<Seq<u8>>, RepoWorld) {
    match a {
        SyncAction::CheckPath => (SyncEvent::PathChecked { exists: w.path_exists }, w),
        SyncAction::ProbeNetwork { .. } => (SyncEvent::NetworkProbed { reachable: true }, w),
        SyncAction::Fetch => if !w.is_repository {
            (SyncEvent::FetchFailed(RepoFault::NotARepository), w)
        } else if !w.remote_reachable {
            (SyncEvent::FetchFailed(RepoFault::RemoteUnreachable), w)
        } else {
            match (w.local, w.remote) {
                (Some(l), Some(r)) => (
                    SyncEvent::Fetched {
                        local: l,
                        remote: r,
                        local_is_ancestor: (w.ancestor)(l, r),
                        remote_is_ancestor: (w.ancestor)(r, l),
                    },
                    w,
                ),
                _ => (SyncEvent::FetchFailed(RepoFault::RefMissing), w),
            }
        },
        SyncAction::Compare { remote } => match w.local {
            Some(l) => (
                SyncEvent::Compared {
                    local: l,
                    local_is_ancestor: (w.ancestor)(l, remote),
                    remote_is_ancestor: (w.ancestor)(remote, l),
                },
                w,
            ),
            None => (SyncEvent::CompareFailed(RepoFault::RefMissing), w),
        },
        SyncAction::UpdateReference { target } => if w.reference_writable {
            (SyncEvent::ReferenceUpdated { ok: true }, RepoWorld { local: Some(target), ..w })
        } else {
            (SyncEvent::ReferenceUpdated { ok: false }, w)
        },
        SyncAction::Checkout { target } => if w.tree_writable {
            (SyncEvent::CheckedOut { ok: true }, RepoWorld { tree: Some(target), ..w })
        } else {
            (SyncEvent::CheckedOut { ok: false }, w)
        },
        SyncAction::Finish(_) => (SyncEvent::PathChecked { exists: w.path_exists }, w),
    }
}

/// Drives the machine from state `s` against `w` for at most `fuel` actions:
/// the outcome and the repository at the end, or `None` if the pass has not
/// ended by then.
pub open spec fn run(w: RepoWorld, s: SyncState<Seq<u8>>, fuel: nat) -> Option<
    (SyncOutcome, RepoWorld),
>
    decreases fuel,
{
    match s {
        SyncState::Done(o) => Some((o, w)),
        _ => if fuel == 0 {
            None
        } else {
            let (e, w2) = respond(w, action_of(s));
            run(w2, next_state(s, e), (fuel - 1) as nat)
        },
    }
}

/// Actions enough for any pass in which the first network probe succeeds.
pub open spec fn pass_fuel() -> nat {
    8
}

/// One full pass of the machine over `w`.
pub open spec fn pass(w: RepoWorld) -> Option<(SyncOutcome, RepoWorld)> {
    run(w, initial_state(), pass_fuel())
}

/// Equal tips: whatever the graph answers, the verdict is that the local
/// branch is up to date.
pub proof fn lemma_equal_tips_up_to_date(
    local: Seq<u8>,
    remote: Seq<u8>,
    local_is_ancestor: bool,
    remote_is_ancestor: bool,
)
    requires
        local == remote,
    ensures
        verdict_of(relation_of(local, remote, local_is_ancestor, remote_is_ancestor), remote)
            == DivergenceVerdict::<Seq<u8>>::UpToDate,
{
}

/// A local tip that is a strict ancestor of the remote tip gets the verdict
/// to fast-forward to exactly the remote tip.
pub proof fn lemma_strict_ancestor_fast_forwards(
    local: Seq<u8>,
    remote: Seq<u8>,
    remote_is_ancestor: bool,
)
    requires
        local != remote,
    ensures
        verdict_of(relation_of(local, remote, true, remote_is_ancestor), remote)
            == DivergenceVerdict::FastForward(remote),
{
}

/// Tips of which neither is an ancestor of the other get the verdict that
/// they have diverged.
pub proof fn lemma_unrelated_tips_diverged(local: Seq<u8>, remote: Seq<u8>)
    requires
        local != remote,
    ensures
        verdict_of(relation_of(local, remote, false, false), remote)
            == DivergenceVerdict::<Seq<u8>>::Diverged,
{
}

/// The outcome of a full pass over `w`, if it ends.
pub open spec fn pass_outcome(w: RepoWorld) -> Option<SyncOutcome> {
    match pass(w) {
        Some((o, _)) => Some(o),
        None => None,
    }
}

/// The repository after a full pass over `w` (`w` itself if it does not end).
pub open spec fn after_pass(w: RepoWorld) -> RepoWorld {
    match pass(w) {
        Some((_, w1)) => w1,
        None => w,
    }
}

/// The path is there, holds a repository whose remote answers, and the
/// branch exists on both sides.
pub open spec fn reachable_with_tips(w: RepoWorld) -> bool {
    &&& w.path_exists
    &&& w.is_repository
    &&& w.remote_reachable
    &&& w.local is Some
    &&& w.remote is Some
}

/// A local tip that is a strict ancestor of the remote tip is fast-forwarded:
/// the pass ends `Updated`, with the branch and the working tree at exactly
/// the remote tip and nothing else changed.
pub proof fn lemma_fast_forward_pass(w: RepoWorld)
    requires
        reachable_with_tips(w),
        w.local != w.remote,
        (w.ancestor)(w.local->0, w.remote->0),
        w.reference_writable,
        w.tree_writable,
    ensures
        pass(w) == Some((SyncOutcome::Updated, RepoWorld { local: w.remote, tree: w.remote, ..w })),
{
    reveal_with_fuel(run, 9);
}

/// Diverged tips are left alone: the pass is skipped as non-fast-forward and
/// neither the branch nor the working tree changes.
pub proof fn lemma_diverged_pass(w: RepoWorld)
    requires
        reachable_with_tips(w),
        w.local != w.remote,
        !(w.ancestor)(w.local->0, w.remote->0),
        !(w.ancestor)(w.remote->0, w.local->0),
    ensures
        pass(w) == Some((SyncOutcome::Skipped(SkipReason::NonFastForward), w)),
{
    reveal_with_fuel(run, 9);
}

/// A failed fetch ends the pass as a failure that names the unreachable
/// remote, and changes nothing.
pub proof fn lemma_unreachable_pass(w: RepoWorld)
    requires
        w.path_exists,
        w.is_repository,
        !w.remote_reachable,
    ensures
        pass(w) == Some((SyncOutcome::Failed(FailureCause::RemoteUnreachable), w)),
{
    reveal_with_fuel(run, 9);
}

/// After a pass that ends `Updated`, the branch and the working tree both
/// stand at the remote tip.
pub proof fn lemma_updated_pass_lands(w: RepoWorld)
    requires
        pass_outcome(w) == Some(SyncOutcome::Updated),
    ensures
        w.remote is Some,
        after_pass(w).local == w.remote,
        after_pass(w).tree == w.remote,
{
    reveal_with_fuel(run, 9);
}

/// A pass that succeeded, run again with no new remote commits, finds nothing
/// to do and changes nothing; a pass that found nothing to do changed nothing.
pub proof fn lemma_second_pass_idle(w: RepoWorld)
    requires
        pass_outcome(w) == Some(SyncOutcome::NoUpdate) || pass_outcome(w) == Some(
            SyncOutcome::Updated,
        ),
    ensures
        pass(after_pass(w)) == Some((SyncOutcome::NoUpdate, after_pass(w))),
        pass_outcome(w) == Some(SyncOutcome::NoUpdate) ==> after_pass(w) == w,
{
    reveal_with_fuel(run, 9);
}

} // verus!
