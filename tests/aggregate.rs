use lethephobia_domain::{
    Aggregate, AggregateError, AggregateId, AggregateRoot, AggregateState, AggregateVersion,
    AggregateVersionError, CreatedAt, Event, EventId, EventPayload, Id, Snapshot, SnapshotId,
};

#[derive(Copy, Clone, Debug, Eq, PartialEq, Hash, Ord, PartialOrd)]
struct CounterAggregateId(Id);

impl CounterAggregateId {
    fn new() -> Self {
        Self(Id::new())
    }
}

impl AggregateId for CounterAggregateId {
    fn spec_value(&self) -> Id {
        self.0
    }

    fn value(self) -> Id {
        self.0
    }
}

#[derive(Clone, Debug, Eq, PartialEq, Hash)]
struct CounterState {
    id: CounterAggregateId,
    counter: i32,
}

impl CounterState {
    fn new(id: CounterAggregateId, counter: i32) -> Self {
        Self { id, counter }
    }

    fn counter(&self) -> i32 {
        self.counter
    }
}

impl AggregateState for CounterState {
    type Id = CounterAggregateId;

    fn spec_id(&self) -> Self::Id {
        self.id
    }

    fn id(&self) -> Self::Id {
        self.id
    }

    fn duplicate(&self) -> Self {
        self.clone()
    }
}

#[derive(Clone, Debug, Eq, PartialEq)]
enum CounterEventPayload {
    Created(),
    Increment(i32),
    Decrement(i32),
}

impl EventPayload for CounterEventPayload {
    fn event_type(&self) -> &'static str {
        match self {
            Self::Created() => "test_created",
            Self::Increment(_) => "test_increment",
            Self::Decrement(_) => "test_decrement",
        }
    }
}

type CounterEvent = Event<CounterAggregateId, CounterEventPayload>;

#[derive(Debug)]
enum CounterError {
    Aggregate(AggregateError<CounterAggregateId>),
    InvalidEventPayload(CounterEventPayload),
    StateMissing,
}

/// The counter kind: its own identifier, given to the state that `Created`
/// establishes.
#[derive(Clone, Debug)]
struct CounterKind {
    id: CounterAggregateId,
}

impl Aggregate for CounterKind {
    type Id = CounterAggregateId;
    type State = CounterState;
    type EventPayload = CounterEventPayload;
    type Error = CounterError;

    fn transition(
        &self,
        state: Option<CounterState>,
        payload: CounterEventPayload,
    ) -> Result<CounterState, CounterError> {
        self.apply(&state, &payload)
    }

    fn spec_from_aggregate_error(error: AggregateError<CounterAggregateId>) -> CounterError {
        CounterError::Aggregate(error)
    }

    fn apply(
        &self,
        state: &Option<CounterState>,
        payload: &CounterEventPayload,
    ) -> Result<CounterState, CounterError> {
        match state {
            None => match payload {
                CounterEventPayload::Created() => Ok(CounterState::new(self.id, 0)),
                _ => Err(CounterError::InvalidEventPayload(payload.clone())),
            },
            Some(state) => match payload {
                CounterEventPayload::Increment(delta) => {
                    Ok(CounterState::new(state.id, state.counter + delta))
                }
                CounterEventPayload::Decrement(delta) => {
                    Ok(CounterState::new(state.id, state.counter - delta))
                }
                _ => Err(CounterError::StateMissing),
            },
        }
    }

    fn from_aggregate_error(error: AggregateError<CounterAggregateId>) -> CounterError {
        CounterError::Aggregate(error)
    }
}

type Counter = AggregateRoot<CounterKind>;

trait CounterCommands {
    fn id(&self) -> CounterAggregateId;
    fn create(&mut self) -> Result<(), CounterError>;
    fn increment(&mut self, delta: i32) -> Result<(), CounterError>;
    fn decrement(&mut self, delta: i32) -> Result<(), CounterError>;
}

impl CounterCommands for Counter {
    fn id(&self) -> CounterAggregateId {
        self.kind().id
    }

    fn create(&mut self) -> Result<(), CounterError> {
        self.append_event(CounterEventPayload::Created())
    }

    fn increment(&mut self, delta: i32) -> Result<(), CounterError> {
        self.append_event(CounterEventPayload::Increment(delta))
    }

    fn decrement(&mut self, delta: i32) -> Result<(), CounterError> {
        self.append_event(CounterEventPayload::Decrement(delta))
    }
}

fn new_counter() -> Counter {
    AggregateRoot::new(CounterKind {
        id: CounterAggregateId::new(),
    })
}

#[test]
fn aggregate_id_is_none_before_creation_and_some_after() {
    let mut counter = new_counter();

    assert!(counter.aggregate_id().is_none());

    counter.create().expect("create should succeed");

    let aggregate_id = counter
        .aggregate_id()
        .expect("id should exist after create");
    assert_eq!(
        aggregate_id,
        counter.state().expect("state should exist").id()
    );
}

#[test]
fn create_initializes_state_and_records_created_event() {
    let mut counter = new_counter();

    counter.create().expect("create should succeed");

    let state = counter.state().expect("state should be initialized");
    assert_eq!(state.counter(), 0);
    assert_eq!(counter.version().value(), 1);
    let events = counter.uncommitted_events();
    assert_eq!(events.len(), 1);
    let event = &events[0];
    assert_eq!(event.aggregate_id(), state.id());
    assert_eq!(event.aggregate_version().value(), 1);
    assert_eq!(event.payload(), &CounterEventPayload::Created());
}

#[test]
fn increment_and_decrement_update_state_and_version() {
    let mut counter = new_counter();
    counter.create().expect("create should succeed");
    counter.drain_uncommitted_events();

    counter.increment(5).expect("increment should succeed");
    counter.decrement(2).expect("decrement should succeed");

    let state = counter.state().expect("state should exist");
    assert_eq!(state.counter(), 3);
    assert_eq!(counter.version().value(), 3);

    let events = counter.uncommitted_events();
    assert_eq!(events.len(), 2);
    assert_eq!(events[0].payload(), &CounterEventPayload::Increment(5));
    assert_eq!(events[1].payload(), &CounterEventPayload::Decrement(2));
}

#[test]
fn append_event_returns_error_when_state_missing() {
    let mut counter = new_counter();

    let err = counter
        .increment(1)
        .expect_err("increment should fail without initial state");

    assert!(matches!(err, CounterError::InvalidEventPayload(_)));
    assert_eq!(counter.version().value(), 0);
    assert!(counter.uncommitted_events().is_empty());
}

#[test]
fn bump_version_returns_error_on_overflow() {
    let mut counter = new_counter();
    counter.create().expect("create should succeed");
    let max_version = AggregateVersion::try_from(i64::MAX).unwrap();
    counter.set_version(max_version);

    let err = counter
        .bump_version()
        .expect_err("overflow when bumping version should error");

    assert!(matches!(
        err,
        CounterError::Aggregate(AggregateError::Version(_))
    ));
    assert_eq!(counter.version(), max_version);
}

#[test]
fn drain_uncommitted_events_clears_buffer() {
    let mut counter = new_counter();
    let event1 = CounterEvent::new(
        counter.id(),
        counter.version(),
        CounterEventPayload::Created(),
    );
    let event2 = CounterEvent::new(
        counter.id(),
        counter.version(),
        CounterEventPayload::Increment(2),
    );

    counter.record_uncommitted_event(event1.clone());
    counter.record_uncommitted_event(event2.clone());

    let drained = counter.drain_uncommitted_events();
    assert_eq!(drained, vec![event1, event2]);
    assert!(counter.uncommitted_events().is_empty());
}

#[test]
fn validate_next_event_returns_error_for_mismatched_id() {
    let mut counter = new_counter();
    counter.create().expect("create should succeed");
    let mismatched_event = CounterEvent::new(
        CounterAggregateId::new(),
        counter.version().try_next().unwrap(),
        CounterEventPayload::Increment(1),
    );

    let err = counter
        .validate_next_event(&mismatched_event)
        .expect_err("expected invalid aggregate id error");

    assert!(matches!(
        err,
        CounterError::Aggregate(AggregateError::InvalidAggregateId(_, _))
    ));
}

#[test]
fn validate_next_event_returns_error_for_incorrect_version() {
    let mut counter = new_counter();
    counter.create().expect("create should succeed");
    let invalid_version_event = CounterEvent::new(
        counter.aggregate_id().expect("id should exist"),
        counter.version(),
        CounterEventPayload::Increment(1),
    );

    let err = counter
        .validate_next_event(&invalid_version_event)
        .expect_err("expected invalid version error");

    assert!(matches!(
        err,
        CounterError::Aggregate(AggregateError::InvalidNextEventVersion(_, _))
    ));
}

#[test]
fn validate_next_event_succeeds_for_expected_sequence() {
    let mut counter = new_counter();
    counter.create().expect("create should succeed");
    let next_version = counter.version().try_next().unwrap();
    let event = CounterEvent::new(
        counter.aggregate_id().expect("id should exist"),
        next_version,
        CounterEventPayload::Increment(1),
    );

    counter
        .validate_next_event(&event)
        .expect("validation should pass");
}

#[test]
fn replay_event_applies_payload_and_updates_version() {
    let mut counter = new_counter();
    let event = CounterEvent::new(
        counter.id(),
        counter.version().try_next().unwrap(),
        CounterEventPayload::Created(),
    );

    counter
        .replay_event(event)
        .expect("replay_event should succeed");

    let state = counter.state().expect("state should exist after replay");
    assert_eq!(state.counter(), 0);
    assert_eq!(counter.version().value(), 1);
    assert!(counter.uncommitted_events().is_empty());
}

#[test]
fn replay_event_propagates_apply_errors() {
    let mut counter = new_counter();
    let event = CounterEvent::new(
        counter.id(),
        counter.version().try_next().unwrap(),
        CounterEventPayload::Increment(1),
    );

    let err = counter
        .replay_event(event)
        .expect_err("expected apply error to propagate");

    assert!(matches!(err, CounterError::InvalidEventPayload(_)));
    assert_eq!(counter.version().value(), 0);
}

#[test]
fn replay_events_applies_snapshot_and_replays_sequence() {
    let mut counter = new_counter();
    let snapshot_state = CounterState::new(counter.id(), 10);
    let snapshot_version = AggregateVersion::try_from(3).unwrap();
    let snapshot = Snapshot::new(snapshot_version, snapshot_state.clone());
    let event1_version = snapshot_version.try_next().unwrap();
    let event2_version = event1_version.try_next().unwrap();
    let events = vec![
        CounterEvent::new(
            snapshot_state.id(),
            event1_version,
            CounterEventPayload::Increment(5),
        ),
        CounterEvent::new(
            snapshot_state.id(),
            event2_version,
            CounterEventPayload::Decrement(3),
        ),
    ];

    counter
        .replay_events(events, Some(snapshot))
        .expect("replay_events should succeed");

    let state = counter.state().expect("state should exist after replay");
    assert_eq!(state.counter(), 12);
    assert_eq!(counter.version(), event2_version);
    assert!(counter.uncommitted_events().is_empty());
}

#[test]
fn replay_events_without_snapshot_starts_from_current_state() {
    let mut counter = new_counter();
    counter.create().expect("create should succeed");
    let event_version = counter.version().try_next().unwrap();
    let events = vec![CounterEvent::new(
        counter.aggregate_id().expect("id should exist"),
        event_version,
        CounterEventPayload::Increment(4),
    )];

    counter
        .replay_events(events, None)
        .expect("replay_events should succeed");

    let state = counter.state().expect("state should exist");
    assert_eq!(state.counter(), 4);
    assert_eq!(counter.version(), event_version);
}

#[test]
fn restore_snapshot_sets_state_and_version() {
    let mut counter = new_counter();
    let snapshot_state = CounterState::new(counter.id(), 7);
    let snapshot_version = AggregateVersion::try_from(2).unwrap();
    let snapshot = Snapshot::new(snapshot_version, snapshot_state.clone());

    counter
        .restore_snapshot(snapshot)
        .expect("restore_snapshot should succeed");

    let state = counter.state().expect("state should exist after restore");
    assert_eq!(state, &snapshot_state);
    assert_eq!(counter.version(), snapshot_version);
}

#[test]
fn to_snapshot_returns_error_when_state_missing() {
    let counter = new_counter();

    let err = counter
        .to_snapshot()
        .expect_err("expected error when state missing");

    assert!(matches!(
        err,
        CounterError::Aggregate(AggregateError::NoState)
    ));
}

#[test]
fn to_snapshot_serializes_current_state() {
    let mut counter = new_counter();
    counter.create().expect("create should succeed");
    counter.increment(3).expect("increment should succeed");

    let snapshot = counter
        .to_snapshot()
        .expect("expected snapshot to be created");

    assert_eq!(
        snapshot.aggregate_id(),
        counter.aggregate_id().expect("id should exist")
    );
    assert_eq!(snapshot.aggregate_version(), counter.version());
    assert_eq!(
        snapshot.state(),
        counter.state().expect("state should exist")
    );
}

#[test]
fn fresh_create_gives_version_one_and_one_event() {
    let mut counter = new_counter();
    counter.create().expect("create should succeed");

    assert!(counter.state().is_some());
    assert_eq!(counter.version().value(), 1);
    let events = counter.uncommitted_events();
    assert_eq!(events.len(), 1);
    assert_eq!(events[0].aggregate_version().value(), 1);
    assert_eq!(events[0].aggregate_id(), counter.id());
}

#[test]
fn foreign_event_at_version_three_is_refused() {
    let mut counter = new_counter();
    counter.create().expect("create should succeed");
    counter.increment(1).expect("increment should succeed");
    counter.increment(1).expect("increment should succeed");
    assert_eq!(counter.version().value(), 3);
    let expected = counter.id();
    let foreign = CounterAggregateId::new();
    let event = CounterEvent::new(
        foreign,
        counter.version().try_next().unwrap(),
        CounterEventPayload::Increment(1),
    );

    let err = counter.replay_event(event).expect_err("foreign event should be refused");

    match err {
        CounterError::Aggregate(AggregateError::InvalidAggregateId(e, a)) => {
            assert_eq!(e, expected);
            assert_eq!(a, foreign);
        }
        other => panic!("unexpected error {other:?}"),
    }
    assert_eq!(counter.version().value(), 3);
    assert_eq!(counter.state().unwrap().counter(), 2);
}

#[test]
fn snapshot_then_two_events_reaches_version_five() {
    let mut source = new_counter();
    source.create().expect("create should succeed");
    source.increment(4).expect("increment should succeed");
    source.decrement(1).expect("decrement should succeed");
    let snapshot = source.to_snapshot().expect("snapshot should be taken");
    assert_eq!(snapshot.aggregate_version().value(), 3);
    let id = source.id();
    let v4 = AggregateVersion::try_from(4).unwrap();
    let v5 = AggregateVersion::try_from(5).unwrap();
    let events = vec![
        CounterEvent::new(id, v4, CounterEventPayload::Increment(10)),
        CounterEvent::new(id, v5, CounterEventPayload::Decrement(2)),
    ];

    let mut rebuilt = AggregateRoot::new(source.kind().clone());
    rebuilt
        .replay_events(events, Some(snapshot))
        .expect("replay should succeed");

    assert_eq!(rebuilt.version().value(), 5);
    assert_eq!(rebuilt.state().unwrap().counter(), 3 + 10 - 2);
    assert!(rebuilt.drain_uncommitted_events().is_empty());
}

#[test]
fn replay_never_fills_the_uncommitted_buffer() {
    let mut source = new_counter();
    source.create().expect("create should succeed");
    source.increment(2).expect("increment should succeed");
    let history = source.drain_uncommitted_events();

    let mut rebuilt = AggregateRoot::new(source.kind().clone());
    rebuilt.replay_events(history, None).expect("replay should succeed");

    assert_eq!(rebuilt.version().value(), 2);
    assert_eq!(rebuilt.state().unwrap().counter(), 2);
    assert!(rebuilt.drain_uncommitted_events().is_empty());
}

#[test]
fn snapshot_round_trip_keeps_state_and_version() {
    let mut source = new_counter();
    source.create().expect("create should succeed");
    source.increment(9).expect("increment should succeed");
    let snapshot = source.to_snapshot().expect("snapshot should be taken");

    let mut restored = new_counter();
    restored.restore_snapshot(snapshot).expect("restore should succeed");

    assert_eq!(restored.state(), source.state());
    assert_eq!(restored.version(), source.version());
}

#[test]
fn validate_next_event_gives_the_same_answer_twice() {
    let mut counter = new_counter();
    counter.create().expect("create should succeed");
    let good = CounterEvent::new(
        counter.id(),
        counter.version().try_next().unwrap(),
        CounterEventPayload::Increment(1),
    );
    let stale = CounterEvent::new(counter.id(), counter.version(), CounterEventPayload::Increment(1));

    assert!(counter.validate_next_event(&good).is_ok());
    assert!(counter.validate_next_event(&good).is_ok());
    for _ in 0..2 {
        match counter.validate_next_event(&stale) {
            Err(CounterError::Aggregate(AggregateError::InvalidNextEventVersion(got, expected))) => {
                assert_eq!(got.value(), 1);
                assert_eq!(expected.value(), 2);
            }
            other => panic!("unexpected result {other:?}"),
        }
    }
    assert_eq!(counter.version().value(), 1);
    assert_eq!(counter.uncommitted_events().len(), 1);
}

#[test]
fn append_at_maximum_version_overflows_and_changes_nothing() {
    let mut counter = new_counter();
    counter.create().expect("create should succeed");
    let max_version = AggregateVersion::try_from(i64::MAX).unwrap();
    counter.set_version(max_version);

    let err = counter.increment(1).expect_err("append at the maximum should fail");

    assert!(matches!(
        err,
        CounterError::Aggregate(AggregateError::Version(AggregateVersionError::Overflow))
    ));
    assert_eq!(counter.version(), max_version);
    assert_eq!(counter.state().unwrap().counter(), 0);
    assert_eq!(counter.uncommitted_events().len(), 1);
}

#[test]
fn replay_rejects_repeated_and_skipped_versions() {
    let mut counter = new_counter();
    counter.create().expect("create should succeed");
    let current = counter.version();
    let skipped = current.try_next().unwrap().try_next().unwrap();

    for declared in [current, skipped] {
        let event = CounterEvent::new(counter.id(), declared, CounterEventPayload::Increment(1));
        let err = counter.replay_event(event).expect_err("out of sequence event should fail");
        match err {
            CounterError::Aggregate(AggregateError::InvalidNextEventVersion(got, expected)) => {
                assert_eq!(got, declared);
                assert_eq!(expected.value(), 2);
            }
            other => panic!("unexpected error {other:?}"),
        }
        assert_eq!(counter.version(), current);
    }
}

#[test]
fn replay_events_stops_at_first_refusal() {
    let mut counter = new_counter();
    let id = counter.id();
    let v1 = AggregateVersion::try_from(1).unwrap();
    let v2 = AggregateVersion::try_from(2).unwrap();
    let v4 = AggregateVersion::try_from(4).unwrap();
    let events = vec![
        CounterEvent::new(id, v1, CounterEventPayload::Created()),
        CounterEvent::new(id, v2, CounterEventPayload::Increment(6)),
        CounterEvent::new(id, v4, CounterEventPayload::Increment(100)),
        CounterEvent::new(id, v4, CounterEventPayload::Increment(1000)),
    ];

    let err = counter.replay_events(events, None).expect_err("gap should stop the replay");

    assert!(matches!(
        err,
        CounterError::Aggregate(AggregateError::InvalidNextEventVersion(_, _))
    ));
    assert_eq!(counter.version().value(), 2);
    assert_eq!(counter.state().unwrap().counter(), 6);
    assert!(counter.uncommitted_events().is_empty());
}

#[test]
fn created_payload_on_existing_state_is_refused() {
    let mut counter = new_counter();
    counter.create().expect("create should succeed");

    let err = counter.create().expect_err("second create should fail");

    assert!(matches!(err, CounterError::StateMissing));
    assert_eq!(counter.version().value(), 1);
    assert_eq!(counter.uncommitted_events().len(), 1);
    assert_eq!(counter.uncommitted_events()[0].payload().event_type(), "test_created");
}

#[test]
fn event_from_history_keeps_every_field() {
    let id = EventId::new();
    let owner = CounterAggregateId::new();
    let version = AggregateVersion::try_from(8).unwrap();
    let at = CreatedAt::from_timestamp(1_600_000_000, 5);

    let event = CounterEvent::from_history(id, owner, version, CounterEventPayload::Increment(3), at);

    assert_eq!(event.id(), id);
    assert_eq!(event.aggregate_id(), owner);
    assert_eq!(event.aggregate_version(), version);
    assert_eq!(event.payload(), &CounterEventPayload::Increment(3));
    assert_eq!(event.created_at(), at);
    assert_eq!(event.into_payload(), CounterEventPayload::Increment(3));
}

#[test]
fn snapshot_from_history_keeps_every_field() {
    let id = SnapshotId::new();
    let state = CounterState::new(CounterAggregateId::new(), 11);
    let version = AggregateVersion::try_from(4).unwrap();
    let at = CreatedAt::from_timestamp(1_650_000_000, 0);

    let snapshot = Snapshot::from_history(id, version, state.clone(), at);

    assert_eq!(snapshot.id(), id);
    assert_eq!(snapshot.aggregate_version(), version);
    assert_eq!(snapshot.aggregate_id(), state.id());
    assert_eq!(snapshot.state(), &state);
    assert_eq!(snapshot.created_at(), at);
    assert_eq!(snapshot.into_state(), state);
}

#[test]
fn new_events_and_snapshots_get_distinct_identifiers() {
    let owner = CounterAggregateId::new();
    let version = AggregateVersion::new();
    let first = CounterEvent::new(owner, version, CounterEventPayload::Created());
    let second = CounterEvent::new(owner, version, CounterEventPayload::Created());
    assert_ne!(first.id(), second.id());

    let state = CounterState::new(owner, 0);
    let a = Snapshot::new(version, state.clone());
    let b = Snapshot::new(version, state);
    assert_ne!(a.id(), b.id());
}
