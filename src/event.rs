use vstd::prelude::*;

use crate::created_at::CreatedAt;
use crate::identifier::{AggregateId, EventId};
use crate::version::AggregateVersion;

verus! {

/// What an event says happened, beyond its place in the history.
pub trait EventPayload: Sized {
    /// A stable name of the kind of payload.
    fn event_type(&self) -> &'static str;
}

/// An immutable fact about one aggregate: the payload, the aggregate that it
/// belongs to and the version that the aggregate has once it is applied.
#[derive(Debug, Clone, PartialEq, Eq, Hash)]
pub struct Event<A: AggregateId, P: EventPayload> {
    id: EventId,
    aggregate_id: A,
    aggregate_version: AggregateVersion,
    payload: P,
    created_at: CreatedAt,
}

impl<A: AggregateId, P: EventPayload> Event<A, P> {
    pub closed spec fn spec_id(&self) -> EventId {
        self.id
    }

    pub closed spec fn spec_aggregate_id(&self) -> A {
        self.aggregate_id
    }

    pub closed spec fn spec_aggregate_version(&self) -> AggregateVersion {
        self.aggregate_version
    }

    pub closed spec fn spec_payload(&self) -> P {
        self.payload
    }

    pub closed spec fn spec_created_at(&self) -> CreatedAt {
        self.created_at
    }

    /// A new event, with a fresh identifier and the current time. Nothing is
    /// checked here: the aggregate checks an event when it is applied.
    pub fn new(aggregate_id: A, aggregate_version: AggregateVersion, payload: P) -> (r: Self)
        ensures
            r.spec_aggregate_id() == aggregate_id,
            r.spec_aggregate_version() == aggregate_version,
            r.spec_payload() == payload,
    {
        Event {
            id: EventId::new(),
            aggregate_id,
            aggregate_version,
            payload,
            created_at: CreatedAt::now(),
        }
    }

    /// An event read back from a history, with the identifier and the time
    /// that it was recorded with.
    pub fn from_history(
        id: EventId,
        aggregate_id: A,
        aggregate_version: AggregateVersion,
        payload: P,
        created_at: CreatedAt,
    ) -> (r: Self)
        ensures
            r.spec_id() == id,
            r.spec_aggregate_id() == aggregate_id,
            r.spec_aggregate_version() == aggregate_version,
            r.spec_payload() == payload,
            r.spec_created_at() == created_at,
    {
        Event { id, aggregate_id, aggregate_version, payload, created_at }
    }

    pub fn id(&self) -> (r: EventId)
        ensures
            r == self.spec_id(),
    {
        self.id
    }

    pub fn aggregate_id(&self) -> (r: A)
        ensures
            r == self.spec_aggregate_id(),
    {
        self.aggregate_id
    }

    pub fn aggregate_version(&self) -> (r: AggregateVersion)
        ensures
            r == self.spec_aggregate_version(),
    {
        self.aggregate_version
    }

    pub fn payload(&self) -> (r: &P)
        ensures
            *r == self.spec_payload(),
    {
        &self.payload
    }

    /// Gives up the event for its payload.
    pub fn into_payload(self) -> (r: P)
        ensures
            r == self.spec_payload(),
    {
        self.payload
    }

    pub fn created_at(&self) -> (r: CreatedAt)
        ensures
            r == self.spec_created_at(),
    {
        self.created_at
    }
}

} // verus!
