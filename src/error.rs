use vstd::prelude::*;

use crate::version::{AggregateVersion, AggregateVersionError};

verus! {

/// The ways in which the aggregate protocol refuses an operation.
#[derive(Debug, Clone, Copy, PartialEq, Eq)]
pub enum AggregateError<A> {
    /// The event belongs to another aggregate: the expected identifier (the
    /// state's), then the one that the event declares.
    InvalidAggregateId(A, A),
    /// The version could not be advanced.
    Version(AggregateVersionError),
    /// The event is out of sequence: the version that it declares, then the
    /// one that was expected.
    InvalidNextEventVersion(AggregateVersion, AggregateVersion),
    /// The operation needs a state, and none has been established.
    NoState,
}

} // verus!
