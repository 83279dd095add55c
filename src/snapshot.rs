use vstd::prelude::*;

use crate::created_at::CreatedAt;
use crate::identifier::{AggregateId, SnapshotId};
use crate::version::AggregateVersion;

verus! {

/// The reconstructed state of an aggregate, which knows whose it is.
pub trait AggregateState: Sized {
    type Id: AggregateId;

    /// The identifier of the aggregate that this state belongs to.
    spec fn spec_id(&self) -> Self::Id;

    fn id(&self) -> (r: Self::Id)
        ensures
            r == self.spec_id(),
    ;

    /// An equal copy of the state, for a snapshot taken without giving up the
    /// aggregate.
    fn duplicate(&self) -> (r: Self)
        ensures
            r == *self,
    ;
}

/// The state of an aggregate captured at a known version, from which the
/// aggregate can be rebuilt without replaying its history from the start.
#[derive(Debug, Clone, PartialEq, Eq, Hash)]
pub struct Snapshot<S: AggregateState> {
    id: SnapshotId,
    aggregate_version: AggregateVersion,
    state: S,
    created_at: CreatedAt,
}

impl<S: AggregateState> Snapshot<S> {
    pub closed spec fn spec_id(&self) -> SnapshotId {
        self.id
    }

    pub closed spec fn spec_aggregate_version(&self) -> AggregateVersion {
        self.aggregate_version
    }

    pub closed spec fn spec_state(&self) -> S {
        self.state
    }

    pub closed spec fn spec_created_at(&self) -> CreatedAt {
        self.created_at
    }

    /// A new snapshot of `state` at `aggregate_version`, with a fresh
    /// identifier and the current time.
    pub fn new(aggregate_version: AggregateVersion, state: S) -> (r: Self)
        ensures
            r.spec_aggregate_version() == aggregate_version,
            r.spec_state() == state,
    {
        Snapshot { id: SnapshotId::new(), aggregate_version, state, created_at: CreatedAt::now() }
    }

    /// A snapshot read back from storage, with the identifier and the time
    /// that it was taken with.
    pub fn from_history(
        id: SnapshotId,
        aggregate_version: AggregateVersion,
        state: S,
        created_at: CreatedAt,
    ) -> (r: Self)
        ensures
            r.spec_id() == id,
            r.spec_aggregate_version() == aggregate_version,
            r.spec_state() == state,
            r.spec_created_at() == created_at,
    {
        Snapshot { id, aggregate_version, state, created_at }
    }

    pub fn id(&self) -> (r: SnapshotId)
        ensures
            r == self.spec_id(),
    {
        self.id
    }

    /// The identifier of the aggregate whose state this is.
    pub fn aggregate_id(&self) -> (r: S::Id)
        ensures
            r == self.spec_state().spec_id(),
    {
        self.state.id()
    }

    pub fn aggregate_version(&self) -> (r: AggregateVersion)
        ensures
            r == self.spec_aggregate_version(),
    {
        self.aggregate_version
    }

    /// The captured state, left in place.
    pub fn state(&self) -> (r: &S)
        ensures
            *r == self.spec_state(),
    {
        &self.state
    }

    /// Gives up the snapshot for its state.
    pub fn into_state(self) -> (r: S)
        ensures
            r == self.spec_state(),
    {
        self.state
    }

    pub fn created_at(&self) -> (r: CreatedAt)
        ensures
            r == self.spec_created_at(),
    {
        self.created_at
    }
}

} // verus!
