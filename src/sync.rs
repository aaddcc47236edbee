//! Commit identifiers, the ancestry relation between two tips, and the
//! verdicts drawn from it.

use vstd::prelude::*;

verus! {

/// A commit identifier: the raw bytes of the commit's content hash.
#[derive(Debug)]
pub struct CommitId {
    pub bytes: Vec<u8>,
}

impl View for CommitId {
    type V = Seq<u8>;

    open spec fn view(&self) -> Seq<u8> {
        self.bytes@
    }
}

impl CommitId {
    /// The commit named by the hash `bytes`.
    pub fn new(bytes: Vec<u8>) -> (r: CommitId)
        ensures
            r@ == bytes@,
    {
        CommitId { bytes }
    }

    /// Whether `self` and `other` name the same commit.
    pub fn same_as(&self, other: &CommitId) -> (r: bool)
        ensures
            r == (self@ == other@),
    {
        let n = self.bytes.len();
        if n != other.bytes.len() {
            return false;
        }
        let mut i: usize = 0;
        while i < n
            invariant
                n == self@.len(),
                n == other@.len(),
                i <= n,
                forall|j: int| 0 <= j < i ==> self@[j] == other@[j],
            decreases n - i,
        {
            if self.bytes[i] != other.bytes[i] {
                return false;
            }
            i = i + 1;
        }
        assert(self@ =~= other@);
        true
    }

    /// A second value naming the same commit.
    pub fn duplicate(&self) -> (r: CommitId)
        ensures
            r@ == self@,
    {
        let mut bytes: Vec<u8> = Vec::new();
        let mut i: usize = 0;
        while i < self.bytes.len()
            invariant
                i <= self@.len(),
                bytes@ == self@.subrange(0, i as int),
            decreases self@.len() - i,
        {
            bytes.push(self.bytes[i]);
            i = i + 1;
            assert(bytes@ =~= self@.subrange(0, i as int));
        }
        assert(bytes@ =~= self@);
        CommitId { bytes }
    }
}

impl PartialEq for CommitId {
    fn eq(&self, other: &CommitId) -> (r: bool) {
        self.same_as(other)
    }
}

impl vstd::std_specs::cmp::PartialEqSpecImpl for CommitId {
    open spec fn obeys_eq_spec() -> bool {
        true
    }

    open spec fn eq_spec(&self, other: &CommitId) -> bool {
        self@ == other@
    }
}

/// How tip `a` stands to tip `b` in the commit graph.
#[derive(Clone, Copy, Debug, PartialEq, Eq, Structural)]
pub enum AncestryRelation {
    Equal,
    AIsAncestorOfB,
    BIsAncestorOfA,
    Diverged,
}

/// The relation of `a` to `b`, given whether `a` is a strict ancestor of `b`
/// and whether `b` is a strict ancestor of `a`.
pub open spec fn relation_of(
    a: Seq<u8>,
    b: Seq<u8>,
    a_before_b: bool,
    b_before_a: bool,
) -> AncestryRelation {
    if a == b {
        AncestryRelation::Equal
    } else if a_before_b {
        AncestryRelation::AIsAncestorOfB
    } else if b_before_a {
        AncestryRelation::BIsAncestorOfA
    } else {
        AncestryRelation::Diverged
    }
}

/// Combines the identity of two tips with the two strict-ancestry answers of
/// the commit graph into one relation.
pub fn ancestry_relation(
    a: &CommitId,
    b: &CommitId,
    a_before_b: bool,
    b_before_a: bool,
) -> (r: AncestryRelation)
    ensures
        r == relation_of(a@, b@, a_before_b, b_before_a),
{
    if a.same_as(b) {
        AncestryRelation::Equal
    } else if a_before_b {
        AncestryRelation::AIsAncestorOfB
    } else if b_before_a {
        AncestryRelation::BIsAncestorOfA
    } else {
        AncestryRelation::Diverged
    }
}

/// What to do with a local branch given the remote tip.
#[derive(Debug)]
pub enum DivergenceVerdict<C> {
    /// The remote holds nothing that the local branch lacks.
    UpToDate,
    /// The local tip is an ancestor of this remote tip.
    FastForward(C),
    /// Each side holds commits that the other lacks.
    Diverged,
}

impl<C: View> View for DivergenceVerdict<C> {
    type V = DivergenceVerdict<C::V>;

    open spec fn view(&self) -> DivergenceVerdict<C::V> {
        match self {
            DivergenceVerdict::UpToDate => DivergenceVerdict::UpToDate,
            DivergenceVerdict::FastForward(t) => DivergenceVerdict::FastForward(t@),
            DivergenceVerdict::Diverged => DivergenceVerdict::Diverged,
        }
    }
}

/// The verdict for a local branch whose tip stands in `relation` to `remote`.
pub open spec fn verdict_of(relation: AncestryRelation, remote: Seq<u8>) -> DivergenceVerdict<
    Seq<u8>,
> {
    match relation {
        AncestryRelation::Equal => DivergenceVerdict::UpToDate,
        AncestryRelation::BIsAncestorOfA => DivergenceVerdict::UpToDate,
        AncestryRelation::AIsAncestorOfB => DivergenceVerdict::FastForward(remote),
        AncestryRelation::Diverged => DivergenceVerdict::Diverged,
    }
}

/// Classifies the local tip `local` against the remote tip `remote`, where
/// `relation` is how `local` stands to `remote`. The verdict depends on
/// `relation` and `remote` alone.
pub fn classify(local: &CommitId, remote: &CommitId, relation: AncestryRelation) -> (r:
    DivergenceVerdict<CommitId>)
    ensures
        r@ == verdict_of(relation, remote@),
{
    match relation {
        AncestryRelation::Equal => DivergenceVerdict::UpToDate,
        AncestryRelation::BIsAncestorOfA => DivergenceVerdict::UpToDate,
        AncestryRelation::AIsAncestorOfB => DivergenceVerdict::FastForward(remote.duplicate()),
        AncestryRelation::Diverged => DivergenceVerdict::Diverged,
    }
}

/// Whether a fetch found nothing new: the fetched tip equals the local tip or
/// is one of its ancestors.
pub open spec fn fetched_nothing_new(relation: AncestryRelation) -> bool {
    relation == AncestryRelation::Equal || relation == AncestryRelation::BIsAncestorOfA
}

/// What a fetch found: nothing new, or a remote tip that the local branch lacks.
#[derive(Debug)]
pub enum FetchVerdict<C> {
    UpToDate,
    UpdatesAvailable(C),
}

impl<C: View> View for FetchVerdict<C> {
    type V = FetchVerdict<C::V>;

    open spec fn view(&self) -> FetchVerdict<C::V> {
        match self {
            FetchVerdict::UpToDate => FetchVerdict::UpToDate,
            FetchVerdict::UpdatesAvailable(t) => FetchVerdict::UpdatesAvailable(t@),
        }
    }
}

/// Judges a fetch from the local tip, the fetched tip and their strict
/// ancestry: up to date when the fetched tip equals the local tip or is one of
/// its ancestors, else updates are available at the fetched tip.
pub fn synchronize_verdict(
    local: &CommitId,
    fetched: CommitId,
    local_is_ancestor: bool,
    fetched_is_ancestor: bool,
) -> (r: FetchVerdict<CommitId>)
    ensures
        fetched_nothing_new(relation_of(local@, fetched@, local_is_ancestor, fetched_is_ancestor))
            ==> r is UpToDate,
        !fetched_nothing_new(relation_of(local@, fetched@, local_is_ancestor, fetched_is_ancestor))
            ==> r@ == FetchVerdict::UpdatesAvailable(fetched@),
{
    match ancestry_relation(local, &fetched, local_is_ancestor, fetched_is_ancestor) {
        AncestryRelation::Equal => FetchVerdict::UpToDate,
        AncestryRelation::BIsAncestorOfA => FetchVerdict::UpToDate,
        _ => FetchVerdict::UpdatesAvailable(fetched),
    }
}

/// Why a repository was left as it was.
#[derive(Clone, Copy, Debug, PartialEq, Eq, Structural)]
pub enum SkipReason {
    PathNotFound,
    NonFastForward,
}

/// Why synchronizing a repository failed.
#[derive(Clone, Copy, Debug, PartialEq, Eq, Structural)]
pub enum FailureCause {
    NotARepository,
    RemoteUnreachable,
    RefMissing,
    ReferenceUpdateConflict,
    CheckoutFailure,
}

/// A failure of a read-only repository operation: opening, fetching or
/// reading a tip.
#[derive(Clone, Copy, Debug, PartialEq, Eq, Structural)]
pub enum RepoFault {
    NotARepository,
    RemoteUnreachable,
    RefMissing,
}

/// The failure cause that a read-only fault stands for.
pub open spec fn cause_of(f: RepoFault) -> FailureCause {
    match f {
        RepoFault::NotARepository => FailureCause::NotARepository,
        RepoFault::RemoteUnreachable => FailureCause::RemoteUnreachable,
        RepoFault::RefMissing => FailureCause::RefMissing,
    }
}

/// Maps a read-only fault to its failure cause.
pub fn fault_cause(f: RepoFault) -> (r: FailureCause)
    ensures
        r == cause_of(f),
{
    match f {
        RepoFault::NotARepository => FailureCause::NotARepository,
        RepoFault::RemoteUnreachable => FailureCause::RemoteUnreachable,
        RepoFault::RefMissing => FailureCause::RefMissing,
    }
}

/// The result of one synchronization pass over one repository.
#[derive(Clone, Copy, Debug, PartialEq, Eq, Structural)]
pub enum SyncOutcome {
    NoUpdate,
    Updated,
    Skipped(SkipReason),
    Failed(FailureCause),
}

} // verus!
