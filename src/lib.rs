//! An event-sourcing kernel: aggregates rebuilt from an ordered history of
//! events, optionally from a snapshot, with gapless versioning and identity
//! checks on every event.

pub mod aggregate;
pub mod aggregate_type;
pub mod created_at;
pub mod error;
pub mod event;
pub mod identifier;
pub mod snapshot;
pub mod value_object;
pub mod version;

pub use value_object::ValueObject;
pub use version::{AggregateVersion, AggregateVersionError};
pub use identifier::{
    AggregateId, BlogId, BlogIdError, EventId, EventIdError, Id, IdError, SnapshotId, SnapshotIdError,
    UserId, UserIdError,
};
pub use created_at::CreatedAt;
pub use error::AggregateError;
pub use event::{Event, EventPayload};
pub use snapshot::{AggregateState, Snapshot};
pub use aggregate::{Aggregate, AggregateRoot, EventOf};
pub use aggregate_type::{AggregateType, AggregateTypeError};
