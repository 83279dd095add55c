use vstd::prelude::*;

use crate::error::AggregateError;
use crate::event::{Event, EventPayload};
use crate::identifier::AggregateId;
use crate::snapshot::{AggregateState, Snapshot};
use crate::version::{max_version, AggregateVersion, AggregateVersionError};

verus! {

/// A kind of aggregate: its identifier, state, payload and error types, and
/// the transition by which a payload changes its state. The transition is a
/// function of the kind, the current state and the payload, so that a
/// history replays to the same state every time.
pub trait Aggregate: Sized {
    type Id: AggregateId;
    type State: AggregateState<Id = Self::Id>;
    type EventPayload: EventPayload;
    type Error;

    /// The state that `payload` leads to from `state` (`None` before the
    /// aggregate exists), or why the payload does not apply there.
    spec fn transition(
        &self,
        state: Option<Self::State>,
        payload: Self::EventPayload,
    ) -> Result<Self::State, Self::Error>;

    /// The error of this kind that reports a refusal of the protocol.
    spec fn spec_from_aggregate_error(error: AggregateError<Self::Id>) -> Self::Error;

    /// Computes the transition, without changing anything.
    fn apply(&self, state: &Option<Self::State>, payload: &Self::EventPayload) -> (r: Result<
        Self::State,
        Self::Error,
    >)
        ensures
            r == self.transition(*state, *payload),
    ;

    /// Reports a refusal of the protocol as an error of this kind.
    fn from_aggregate_error(error: AggregateError<Self::Id>) -> (r: Self::Error)
        ensures
            r == Self::spec_from_aggregate_error(error),
    ;
}

/// An event of the aggregate kind `A`.
pub type EventOf<A> = Event<<A as Aggregate>::Id, <A as Aggregate>::EventPayload>;

/// Why `event` cannot follow an aggregate with `state` at `version`, or
/// `None` where it can: it must belong to the aggregate whose state this is,
/// and declare exactly the next version.
pub open spec fn next_event_refusal<A: Aggregate>(
    state: Option<A::State>,
    version: AggregateVersion,
    event: EventOf<A>,
) -> Option<AggregateError<A::Id>> {
    if state is Some && state->0.spec_id().spec_value() != event.spec_aggregate_id().spec_value() {
        Some(AggregateError::InvalidAggregateId(state->0.spec_id(), event.spec_aggregate_id()))
    } else if version@ >= max_version() {
        Some(AggregateError::Version(AggregateVersionError::Overflow))
    } else if event.spec_aggregate_version()@ != version@ + 1 {
        Some(
            AggregateError::InvalidNextEventVersion(
                event.spec_aggregate_version(),
                version.spec_next(),
            ),
        )
    } else {
        None
    }
}

/// The state and version that replaying `event` leads to, from `state` at
/// `version`, or the error that stops it.
pub open spec fn replay_step<A: Aggregate>(
    kind: A,
    state: Option<A::State>,
    version: AggregateVersion,
    event: EventOf<A>,
) -> Result<(A::State, AggregateVersion), A::Error> {
    match next_event_refusal::<A>(state, version, event) {
        Some(refusal) => Err(A::spec_from_aggregate_error(refusal)),
        None => match kind.transition(state, event.spec_payload()) {
            Ok(next) => Ok((next, event.spec_aggregate_version())),
            Err(e) => Err(e),
        },
    }
}

/// Replays `events` in order from `state` at `version`: the state and version
/// reached, and the first error, where one stops the replay. After an error
/// the state and version are those that the events before it led to.
pub open spec fn replay_from<A: Aggregate>(
    kind: A,
    state: Option<A::State>,
    version: AggregateVersion,
    events: Seq<EventOf<A>>,
) -> (Option<A::State>, AggregateVersion, Result<(), A::Error>)
    decreases events.len(),
{
    if events.len() == 0 {
        (state, version, Ok(()))
    } else {
        match replay_step(kind, state, version, events[0]) {
            Ok((next, next_version)) => replay_from(
                kind,
                Some(next),
                next_version,
                events.drop_first(),
            ),
            Err(e) => (state, version, Err(e)),
        }
    }
}

/// An aggregate of kind `A`: its state (absent until an event establishes
/// it), its version, and the events appended since they were last drained,
/// in the order in which they were appended.
pub struct AggregateRoot<A: Aggregate> {
    kind: A,
    state: Option<A::State>,
    version: AggregateVersion,
    uncommitted_events: Vec<EventOf<A>>,
}

impl<A: Aggregate> AggregateRoot<A> {
    pub closed spec fn spec_kind(&self) -> A {
        self.kind
    }

    pub closed spec fn spec_state(&self) -> Option<A::State> {
        self.state
    }

    pub closed spec fn spec_version(&self) -> AggregateVersion {
        self.version
    }

    pub closed spec fn spec_uncommitted(&self) -> Seq<EventOf<A>> {
        self.uncommitted_events@
    }

    /// Why `event` cannot come next here, or `None` where it can.
    pub open spec fn refusal_of(&self, event: EventOf<A>) -> Option<AggregateError<A::Id>> {
        next_event_refusal::<A>(self.spec_state(), self.spec_version(), event)
    }

    /// What validating `event` here returns.
    pub open spec fn validation_of(&self, event: EventOf<A>) -> Result<(), A::Error> {
        match self.refusal_of(event) {
            Some(refusal) => Err(A::spec_from_aggregate_error(refusal)),
            None => Ok(()),
        }
    }

    /// The state and version from which a replay starts: the snapshot's where
    /// one is given, else the aggregate's own.
    pub open spec fn replay_base(&self, snapshot: Option<Snapshot<A::State>>) -> (
        Option<A::State>,
        AggregateVersion,
    ) {
        match snapshot {
            Some(s) => (Some(s.spec_state()), s.spec_aggregate_version()),
            None => (self.spec_state(), self.spec_version()),
        }
    }

    /// What replaying `events`, after restoring `snapshot` where one is given,
    /// leads to from here.
    pub open spec fn replay_outcome(
        &self,
        events: Seq<EventOf<A>>,
        snapshot: Option<Snapshot<A::State>>,
    ) -> (Option<A::State>, AggregateVersion, Result<(), A::Error>) {
        let (state, version) = self.replay_base(snapshot);
        replay_from(self.spec_kind(), state, version, events)
    }

    /// Nothing has happened to this aggregate yet.
    pub open spec fn is_fresh(&self) -> bool {
        &&& self.spec_state() is None
        &&& self.spec_version()@ == 0
        &&& self.spec_uncommitted().len() == 0
    }

    /// `after` is this aggregate once `events` have been replayed, after
    /// `snapshot` where one is given, and `r` is what the replay returned.
    pub open spec fn replays_to(
        &self,
        after: Self,
        events: Seq<EventOf<A>>,
        snapshot: Option<Snapshot<A::State>>,
        r: Result<(), A::Error>,
    ) -> bool {
        let (state, version, outcome) = self.replay_outcome(events, snapshot);
        &&& after.spec_state() == state
        &&& after.spec_version() == version
        &&& r == outcome
        &&& after.spec_kind() == self.spec_kind()
        &&& after.spec_uncommitted() == self.spec_uncommitted()
    }

    /// `after` is this aggregate with its uncommitted events handed out as
    /// `drained`.
    pub open spec fn drains_to(&self, after: Self, drained: Seq<EventOf<A>>) -> bool {
        &&& drained == self.spec_uncommitted()
        &&& after.spec_uncommitted().len() == 0
        &&& after.spec_kind() == self.spec_kind()
        &&& after.spec_state() == self.spec_state()
        &&& after.spec_version() == self.spec_version()
    }

    /// `snapshot` holds this aggregate's state and version.
    pub open spec fn captured_by(&self, snapshot: Snapshot<A::State>) -> bool {
        &&& self.spec_state() == Some(snapshot.spec_state())
        &&& snapshot.spec_aggregate_version() == self.spec_version()
    }

    /// This aggregate is `before` with the state and version of `snapshot`.
    pub open spec fn restored_from(&self, before: Self, snapshot: Snapshot<A::State>) -> bool {
        &&& self.spec_kind() == before.spec_kind()
        &&& self.spec_state() == Some(snapshot.spec_state())
        &&& self.spec_version() == snapshot.spec_aggregate_version()
        &&& self.spec_uncommitted() == before.spec_uncommitted()
    }

    /// An aggregate of the given kind to which nothing has happened yet.
    pub fn new(kind: A) -> (r: Self)
        ensures
            r.spec_kind() == kind,
            r.is_fresh(),
    {
        AggregateRoot {
            kind,
            state: None,
            version: AggregateVersion::new(),
            uncommitted_events: Vec::new(),
        }
    }

    pub fn kind(&self) -> (r: &A)
        ensures
            *r == self.spec_kind(),
    {
        &self.kind
    }

    /// The current state, if an event has established one.
    pub fn state(&self) -> (r: Option<&A::State>)
        ensures
            r is Some <==> self.spec_state() is Some,
            r matches Some(s) ==> self.spec_state() == Some(*s),
    {
        self.state.as_ref()
    }

    pub fn version(&self) -> (r: AggregateVersion)
        ensures
            r == self.spec_version(),
    {
        self.version
    }

    /// The events appended and not yet drained, oldest first.
    pub fn uncommitted_events(&self) -> (r: &[EventOf<A>])
        ensures
            r@ == self.spec_uncommitted(),
    {
        self.uncommitted_events.as_slice()
    }

    /// The identifier of the aggregate, known once its state exists.
    pub fn aggregate_id(&self) -> (r: Option<A::Id>)
        ensures
            r is Some <==> self.spec_state() is Some,
            r matches Some(id) ==> id == self.spec_state()->0.spec_id(),
    {
        match &self.state {
            Some(state) => Some(state.id()),
            None => None,
        }
    }

    /// Puts the aggregate at `version`, leaving all else as it is.
    pub fn set_version(&mut self, version: AggregateVersion)
        ensures
            final(self).spec_version() == version,
            final(self).spec_kind() == old(self).spec_kind(),
            final(self).spec_state() == old(self).spec_state(),
            final(self).spec_uncommitted() == old(self).spec_uncommitted(),
    {
        self.version = version;
    }

    /// Adds `event` at the end of the uncommitted events.
    pub fn record_uncommitted_event(&mut self, event: EventOf<A>)
        ensures
            final(self).spec_uncommitted() == old(self).spec_uncommitted().push(event),
            final(self).spec_kind() == old(self).spec_kind(),
            final(self).spec_state() == old(self).spec_state(),
            final(self).spec_version() == old(self).spec_version(),
    {
        self.uncommitted_events.push(event);
    }

    /// Advances the version by one; at the maximum, fails with `Overflow`
    /// and changes nothing.
    pub fn bump_version(&mut self) -> (r: Result<(), A::Error>)
        ensures
            old(self).spec_version()@ < max_version() ==> {
                &&& r is Ok
                &&& final(self).spec_version() == old(self).spec_version().spec_next()
                &&& final(self).spec_version()@ == old(self).spec_version()@ + 1
                &&& final(self).spec_kind() == old(self).spec_kind()
                &&& final(self).spec_state() == old(self).spec_state()
                &&& final(self).spec_uncommitted() == old(self).spec_uncommitted()
            },
            old(self).spec_version()@ >= max_version() ==> {
                &&& r == Err::<(), A::Error>(
                    A::spec_from_aggregate_error(
                        AggregateError::Version(AggregateVersionError::Overflow),
                    ),
                )
                &&& *final(self) == *old(self)
            },
    {
        match self.version.try_next() {
            Ok(next) => {
                self.version = next;
                Ok(())
            },
            Err(e) => Err(A::from_aggregate_error(AggregateError::Version(e))),
        }
    }

    /// Hands out the uncommitted events, oldest first, and leaves none.
    pub fn drain_uncommitted_events(&mut self) -> (r: Vec<EventOf<A>>)
        ensures
            old(self).drains_to(*final(self), r@),
    {
        let mut drained = Vec::new();
        std::mem::swap(&mut drained, &mut self.uncommitted_events);
        drained
    }

    /// Checks that `event` may come next: it must belong to this aggregate
    /// once a state exists, and declare exactly the version after the current
    /// one. Changes nothing, so the same event gets the same answer each time.
    pub fn validate_next_event(&self, event: &EventOf<A>) -> (r: Result<(), A::Error>)
        ensures
            r == self.validation_of(*event),
    {
        if let Some(state) = &self.state {
            let expected = state.id();
            let actual = event.aggregate_id();
            if expected.value() != actual.value() {
                return Err(
                    A::from_aggregate_error(AggregateError::InvalidAggregateId(expected, actual)),
                );
            }
        }
        let next_version = match self.version.try_next() {
            Ok(v) => v,
            Err(e) => {
                return Err(A::from_aggregate_error(AggregateError::Version(e)));
            },
        };
        let declared = event.aggregate_version();
        if declared.value() != next_version.value() {
            return Err(
                A::from_aggregate_error(
                    AggregateError::InvalidNextEventVersion(declared, next_version),
                ),
            );
        }
        Ok(())
    }

    /// Applies a new payload: computes the next state, advances the version,
    /// and only when both succeed records an event for the new version under
    /// the identifier of the new state. A refused payload or an exhausted
    /// version changes nothing.
    pub fn append_event(&mut self, payload: A::EventPayload) -> (r: Result<(), A::Error>)
        ensures
            final(self).spec_kind() == old(self).spec_kind(),
            match old(self).spec_kind().transition(old(self).spec_state(), payload) {
                Err(e) => r == Err::<(), A::Error>(e) && *final(self) == *old(self),
                Ok(next) => if old(self).spec_version()@ < max_version() {
                    let version = old(self).spec_version().spec_next();
                    let n = old(self).spec_uncommitted().len();
                    &&& r is Ok
                    &&& final(self).spec_state() == Some(next)
                    &&& final(self).spec_version() == version
                    &&& final(self).spec_version()@ == old(self).spec_version()@ + 1
                    &&& final(self).spec_uncommitted().len() == n + 1
                    &&& final(self).spec_uncommitted().take(n as int)
                        == old(self).spec_uncommitted()
                    &&& final(self).spec_uncommitted()[n as int].spec_aggregate_id()
                        == next.spec_id()
                    &&& final(self).spec_uncommitted()[n as int].spec_aggregate_version()
                        == version
                    &&& final(self).spec_uncommitted()[n as int].spec_payload() == payload
                } else {
                    &&& r == Err::<(), A::Error>(
                        A::spec_from_aggregate_error(
                            AggregateError::Version(AggregateVersionError::Overflow),
                        ),
                    )
                    &&& *final(self) == *old(self)
                },
            },
    {
        let next_state = match self.kind.apply(&self.state, &payload) {
            Ok(s) => s,
            Err(e) => {
                return Err(e);
            },
        };
        let next_version = match self.version.try_next() {
            Ok(v) => v,
            Err(e) => {
                return Err(A::from_aggregate_error(AggregateError::Version(e)));
            },
        };
        let aggregate_id = next_state.id();
        self.state = Some(next_state);
        self.version = next_version;
        let event = Event::new(aggregate_id, next_version, payload);
        self.uncommitted_events.push(event);
        proof {
            old(self).spec_version().lemma_next();
            assert(self.uncommitted_events@.take(old(self).uncommitted_events@.len() as int)
                =~= old(self).uncommitted_events@);
        }
        Ok(())
    }

    /// Folds one event from the history into the state: validates it,
    /// applies its payload, and moves to the version that it declares. The
    /// event is already committed, so it is not recorded again. A refusal
    /// changes nothing.
    pub fn replay_event(&mut self, event: EventOf<A>) -> (r: Result<(), A::Error>)
        ensures
            match replay_step(
                old(self).spec_kind(),
                old(self).spec_state(),
                old(self).spec_version(),
                event,
            ) {
                Ok((next, version)) => {
                    &&& r is Ok
                    &&& final(self).spec_state() == Some(next)
                    &&& final(self).spec_version() == version
                    &&& final(self).spec_version()@ == old(self).spec_version()@ + 1
                    &&& final(self).spec_kind() == old(self).spec_kind()
                    &&& final(self).spec_uncommitted() == old(self).spec_uncommitted()
                },
                Err(e) => r == Err::<(), A::Error>(e) && *final(self) == *old(self),
            },
    {
        match self.validate_next_event(&event) {
            Ok(()) => {},
            Err(e) => {
                return Err(e);
            },
        }
        let next_state = match self.kind.apply(&self.state, event.payload()) {
            Ok(s) => s,
            Err(e) => {
                return Err(e);
            },
        };
        self.state = Some(next_state);
        self.version = event.aggregate_version();
        Ok(())
    }

    /// Seeds the aggregate with the state and version of `snapshot`, whatever
    /// it held before. Meant for a fresh aggregate, before any replay.
    pub fn restore_snapshot(&mut self, snapshot: Snapshot<A::State>) -> (r: Result<(), A::Error>)
        ensures
            r is Ok,
            final(self).restored_from(*old(self), snapshot),
    {
        let version = snapshot.aggregate_version();
        let state = snapshot.into_state();
        self.state = Some(state);
        self.version = version;
        Ok(())
    }

    /// Rebuilds the aggregate from a history: restores `snapshot` where one
    /// is given, then replays `events` in order. The first refusal stops the
    /// replay and is returned; the aggregate then holds what the events
    /// before it led to, and should be discarded. Nothing is recorded as
    /// uncommitted.
    pub fn replay_events(
        &mut self,
        events: Vec<EventOf<A>>,
        snapshot: Option<Snapshot<A::State>>,
    ) -> (r: Result<(), A::Error>)
        ensures
            old(self).replays_to(*final(self), events@, snapshot, r),
            r is Ok ==> final(self).spec_version()@ == old(self).replay_base(snapshot).1@
                + events@.len(),
    {
        let ghost start = *old(self);
        let ghost snap = snapshot;
        match snapshot {
            Some(s) => {
                let _ = self.restore_snapshot(s);
            },
            None => {},
        }
        let ghost all = events@;
        let ghost kind = self.kind;
        let ghost base_state = self.state;
        let ghost base_version = self.version;
        proof {
            assert(all.skip(0) =~= all);
        }
        for event in iter: events.into_iter()
            invariant
                iter.seq() == all,
                0 <= iter.index() <= all.len(),
                self.kind == kind,
                kind == start.kind,
                start == *old(self),
                snap == snapshot,
                all == events@,
                start.replay_base(snap) == (base_state, base_version),
                self.uncommitted_events@ == start.uncommitted_events@,
                replay_from(kind, base_state, base_version, all) == replay_from(
                    kind,
                    self.state,
                    self.version,
                    all.skip(iter.index() as int),
                ),
                self.version@ == base_version@ + iter.index(),
        {
            proof {
                assert(all.skip(iter.index() as int)[0] == event);
                assert(all.skip(iter.index() as int).drop_first() =~= all.skip(
                    iter.index() + 1,
                ));
            }
            let ghost before = *self;
            match self.replay_event(event) {
                Ok(()) => {},
                Err(e) => {
                    proof {
                        let rest = all.skip(iter.index() as int);
                        assert(replay_from(kind, before.state, before.version, rest) == (
                            before.state,
                            before.version,
                            Err::<(), A::Error>(e),
                        ));
                    }
                    return Err(e);
                },
            }
        }
        proof {
            assert(all.skip(all.len() as int) =~= Seq::<EventOf<A>>::empty());
        }
        Ok(())
    }

    /// A snapshot of the current state at the current version, with a fresh
    /// identifier and the current time; `NoState` before any state exists.
    pub fn to_snapshot(&self) -> (r: Result<Snapshot<A::State>, A::Error>)
        ensures
            self.spec_state() is None <==> r is Err,
            r matches Ok(snapshot) ==> self.captured_by(snapshot),
            r matches Err(e) ==> e == A::spec_from_aggregate_error(AggregateError::NoState),
    {
        match &self.state {
            Some(state) => Ok(Snapshot::new(self.version, state.duplicate())),
            None => Err(A::from_aggregate_error(AggregateError::NoState)),
        }
    }
}

/// Replaying a history that is accepted in full moves the version on by
/// exactly the number of events replayed.
pub proof fn lemma_replay_counts_events<A: Aggregate>(
    kind: A,
    state: Option<A::State>,
    version: AggregateVersion,
    events: Seq<EventOf<A>>,
)
    ensures
        replay_from(kind, state, version, events).2 is Ok ==> replay_from(
            kind,
            state,
            version,
            events,
        ).1@ == version@ + events.len(),
    decreases events.len(),
{
    if events.len() > 0 {
        match replay_step(kind, state, version, events[0]) {
            Ok((next, next_version)) => {
                version.lemma_next();
                lemma_replay_counts_events(kind, Some(next), next_version, events.drop_first());
            },
            Err(_) => {},
        }
    }
}


/// Replay never adds to the uncommitted events: a fresh aggregate that has
/// replayed a history, with or without a snapshot, has nothing to drain.
pub proof fn lemma_replay_leaves_nothing_uncommitted<A: Aggregate>(
    fresh: AggregateRoot<A>,
    events: Seq<EventOf<A>>,
    snapshot: Option<Snapshot<A::State>>,
    replayed: AggregateRoot<A>,
    r: Result<(), A::Error>,
    drained_after: AggregateRoot<A>,
    drained: Seq<EventOf<A>>,
)
    requires
        fresh.is_fresh(),
        fresh.replays_to(replayed, events, snapshot, r),
        replayed.drains_to(drained_after, drained),
    ensures
        drained.len() == 0,
{
}

/// A snapshot taken of an aggregate and restored into a fresh one gives it
/// the same state and the same version.
pub proof fn lemma_snapshot_round_trip<A: Aggregate>(
    source: AggregateRoot<A>,
    snapshot: Snapshot<A::State>,
    fresh: AggregateRoot<A>,
    restored: AggregateRoot<A>,
)
    requires
        source.captured_by(snapshot),
        fresh.is_fresh(),
        restored.restored_from(fresh, snapshot),
    ensures
        restored.spec_state() == source.spec_state(),
        restored.spec_version() == source.spec_version(),
        restored.spec_version()@ == source.spec_version()@,
{
}

/// An event of this aggregate that declares the current version again, or
/// skips one, is refused as out of sequence, with the version it declared
/// and the one expected, wherever the version can still advance.
pub proof fn lemma_out_of_sequence_refused<A: Aggregate>(
    aggregate: AggregateRoot<A>,
    event: EventOf<A>,
)
    requires
        aggregate.spec_state() is Some ==> aggregate.spec_state()->0.spec_id().spec_value()
            == event.spec_aggregate_id().spec_value(),
        aggregate.spec_version()@ < max_version(),
        event.spec_aggregate_version()@ == aggregate.spec_version()@
            || event.spec_aggregate_version()@ == aggregate.spec_version()@ + 2,
    ensures
        replay_step(aggregate.spec_kind(), aggregate.spec_state(), aggregate.spec_version(), event)
            == Err::<(A::State, AggregateVersion), A::Error>(
            A::spec_from_aggregate_error(
                AggregateError::InvalidNextEventVersion(
                    event.spec_aggregate_version(),
                    aggregate.spec_version().spec_next(),
                ),
            ),
        ),
        aggregate.validation_of(event) == Err::<(), A::Error>(
            A::spec_from_aggregate_error(
                AggregateError::InvalidNextEventVersion(
                    event.spec_aggregate_version(),
                    aggregate.spec_version().spec_next(),
                ),
            ),
        ),
{
}

/// Versions count events: replaying a history that is accepted in full
/// leaves a fresh aggregate at the number of events replayed, and one
/// restored from a snapshot at the snapshot's version plus that number.
pub proof fn lemma_version_counts_replayed_events<A: Aggregate>(
    before: AggregateRoot<A>,
    events: Seq<EventOf<A>>,
    snapshot: Option<Snapshot<A::State>>,
    after: AggregateRoot<A>,
)
    requires
        before.is_fresh(),
        before.replays_to(after, events, snapshot, Ok(())),
    ensures
        snapshot is None ==> after.spec_version()@ == events.len(),
        snapshot matches Some(s) ==> after.spec_version()@ == s.spec_aggregate_version()@
            + events.len(),
{
    let (state, version) = before.replay_base(snapshot);
    lemma_replay_counts_events(before.spec_kind(), state, version, events);
}

} // verus!
