use vstd::prelude::*;

use crate::value_object::ValueObject;

verus! {

/// The version field of a UUID read as a 128-bit big-endian integer: the
/// high nibble of its seventh byte.
pub open spec fn version_field(bits: u128) -> u128 {
    (bits >> 76u128) & 0xfu128
}

/// A UUID of version 7, whose leading bits are a Unix timestamp in
/// milliseconds, so that identifiers sort by creation time.
pub open spec fn is_time_ordered(bits: u128) -> bool {
    version_field(bits) == 7
}

/// The lowercase hexadecimal digit that stands for `d`.
pub open spec fn hex_digit(d: u128) -> char
    recommends
        d < 16,
{
    seq!['0', '1', '2', '3', '4', '5', '6', '7', '8', '9', 'a', 'b', 'c', 'd', 'e', 'f'][d as int]
}

/// The `k`-th of the 32 nibbles of `bits`, the most significant first.
pub open spec fn nibble(bits: u128, k: int) -> u128
    recommends
        0 <= k < 32,
{
    (bits >> ((124 - 4 * k) as u128)) & 0xfu128
}

/// How many hyphens stand before position `p` of the hyphenated form.
pub open spec fn hyphens_before(p: int) -> int {
    if p < 8 {
        0
    } else if p < 13 {
        1
    } else if p < 18 {
        2
    } else if p < 23 {
        3
    } else {
        4
    }
}

/// The hyphenated form of a UUID: 32 lowercase hex digits in groups of
/// 8, 4, 4, 4 and 12, joined by hyphens.
pub open spec fn hyphenated(bits: u128) -> Seq<char> {
    Seq::new(
        36,
        |p: int|
            if p == 8 || p == 13 || p == 18 || p == 23 {
                '-'
            } else {
                hex_digit(nibble(bits, p - hyphens_before(p)))
            },
    )
}

/// Relies on uuid's `Uuid::now_v7`: a version 7 UUID from the current time
/// and random bits, read back with `Uuid::as_u128` (big-endian).
#[verifier::external_body]
fn fresh_time_ordered_bits() -> (r: u128)
    ensures
        is_time_ordered(r),
{
    uuid::Uuid::now_v7().as_u128()
}

/// Relies on uuid's `Display` for `Uuid` (its `LowerHex`, the hyphenated
/// form), on the UUID that `Uuid::from_u128` builds from `bits`.
#[verifier::external_body]
fn hyphenated_string(bits: u128) -> (r: String)
    ensures
        r@ == hyphenated(bits),
{
    uuid::Uuid::from_u128(bits).to_string()
}

/// Why an outside value was refused as an identifier.
#[derive(Debug, Clone, Copy, PartialEq, Eq, Structural)]
pub enum IdError {
    /// The value is not a version 7 UUID, so it does not sort by time.
    NotUuidV7(u128),
}

/// A unique identifier that sorts by creation time: a version 7 UUID held as
/// its 128-bit big-endian value.
#[derive(Debug, Clone, Copy, PartialEq, Eq, Hash, PartialOrd, Ord, Structural)]
pub struct Id(u128);

impl View for Id {
    type V = u128;

    closed spec fn view(&self) -> u128 {
        self.0
    }
}

impl Id {
    #[verifier::type_invariant]
    spec fn time_ordered(self) -> bool {
        is_time_ordered(self.0)
    }

    /// A fresh identifier. Never fails.
    pub fn new() -> (r: Id)
        ensures
            is_time_ordered(r@),
    {
        Id(fresh_time_ordered_bits())
    }

    /// The UUID as a 128-bit big-endian integer.
    pub fn value(self) -> (r: u128)
        ensures
            r == self@,
            is_time_ordered(r),
    {
        proof {
            use_type_invariant(&self);
        }
        self.0
    }

    /// Accepts an outside value only when it is a version 7 UUID.
    pub fn try_from(value: u128) -> (r: Result<Id, IdError>)
        ensures
            is_time_ordered(value) <==> r is Ok,
            r matches Ok(id) ==> id@ == value,
            r matches Err(e) ==> e == IdError::NotUuidV7(value),
    {
        if (value >> 76u128) & 0xfu128 == 7 {
            Ok(Id(value))
        } else {
            Err(IdError::NotUuidV7(value))
        }
    }

    /// The hyphenated form of the UUID.
    pub fn to_string(&self) -> (r: String)
        ensures
            r@ == hyphenated(self@),
    {
        hyphenated_string(self.value())
    }
}

impl Default for Id {
    /// A fresh identifier, as [`Id::new`] gives.
    fn default() -> (r: Id)
        ensures
            is_time_ordered(r@),
    {
        Id::new()
    }
}

impl ValueObject for Id {}

/// An identifier of an aggregate kind: a distinct type over [`Id`], so that
/// identifiers of different kinds cannot be mixed up.
pub trait AggregateId: Copy {
    /// The identifier underneath.
    spec fn spec_value(&self) -> Id;

    /// The identifier underneath.
    fn value(self) -> (r: Id)
        ensures
            r == self.spec_value(),
    ;
}

/// Why an outside value was refused as an event identifier.
#[derive(Debug, Clone, Copy, PartialEq, Eq, Structural)]
pub enum EventIdError {
    Id(IdError),
}

/// Why an outside value was refused as a snapshot identifier.
#[derive(Debug, Clone, Copy, PartialEq, Eq, Structural)]
pub enum SnapshotIdError {
    Id(IdError),
}

/// Why an outside value was refused as a blog identifier.
#[derive(Debug, Clone, Copy, PartialEq, Eq, Structural)]
pub enum BlogIdError {
    Id(IdError),
}

/// Why an outside value was refused as a user identifier.
#[derive(Debug, Clone, Copy, PartialEq, Eq, Structural)]
pub enum UserIdError {
    Id(IdError),
}

/// The identifier of an event.
#[derive(Debug, Clone, Copy, PartialEq, Eq, Hash, PartialOrd, Ord, Structural)]
pub struct EventId(Id);

/// The identifier of a snapshot.
#[derive(Debug, Clone, Copy, PartialEq, Eq, Hash, PartialOrd, Ord, Structural)]
pub struct SnapshotId(Id);

/// The identifier of a blog aggregate.
#[derive(Debug, Clone, Copy, PartialEq, Eq, Hash, PartialOrd, Ord, Structural)]
pub struct BlogId(Id);

/// The identifier of a user aggregate.
#[derive(Debug, Clone, Copy, PartialEq, Eq, Hash, PartialOrd, Ord, Structural)]
pub struct UserId(Id);

impl EventId {
    /// The identifier underneath, in specifications.
    pub closed spec fn spec_id(self) -> Id {
        self.0
    }

    /// A fresh event identifier.
    pub fn new() -> (r: EventId)
        ensures
            is_time_ordered(r.spec_id()@),
    {
        EventId(Id::new())
    }

    /// The identifier underneath.
    pub fn value(self) -> (r: Id)
        ensures
            r == self.spec_id(),
    {
        self.0
    }

    /// Accepts an outside value only when it is a version 7 UUID.
    pub fn try_from(value: u128) -> (r: Result<EventId, EventIdError>)
        ensures
            is_time_ordered(value) <==> r is Ok,
            r matches Ok(id) ==> id.spec_id()@ == value,
            r matches Err(e) ==> e == EventIdError::Id(IdError::NotUuidV7(value)),
    {
        match Id::try_from(value) {
            Ok(id) => Ok(EventId(id)),
            Err(e) => Err(EventIdError::Id(e)),
        }
    }

    /// The hyphenated form of the UUID.
    pub fn to_string(&self) -> (r: String)
        ensures
            r@ == hyphenated(self.spec_id()@),
    {
        self.0.to_string()
    }
}

impl From<Id> for EventId {
    fn from(value: Id) -> (r: EventId)
        ensures
            r.spec_id() == value,
    {
        EventId(value)
    }
}

impl vstd::std_specs::convert::FromSpecImpl<Id> for EventId {
    open spec fn obeys_from_spec() -> bool {
        true
    }

    closed spec fn from_spec(v: Id) -> EventId {
        EventId(v)
    }
}

impl Default for EventId {
    /// A fresh identifier, as [`EventId::new`] gives.
    fn default() -> (r: EventId)
        ensures
            is_time_ordered(r.spec_id()@),
    {
        EventId::new()
    }
}

impl ValueObject for EventId {}

impl SnapshotId {
    /// The identifier underneath, in specifications.
    pub closed spec fn spec_id(self) -> Id {
        self.0
    }

    /// A fresh snapshot identifier.
    pub fn new() -> (r: SnapshotId)
        ensures
            is_time_ordered(r.spec_id()@),
    {
        SnapshotId(Id::new())
    }

    /// The identifier underneath.
    pub fn value(self) -> (r: Id)
        ensures
            r == self.spec_id(),
    {
        self.0
    }

    /// Accepts an outside value only when it is a version 7 UUID.
    pub fn try_from(value: u128) -> (r: Result<SnapshotId, SnapshotIdError>)
        ensures
            is_time_ordered(value) <==> r is Ok,
            r matches Ok(id) ==> id.spec_id()@ == value,
            r matches Err(e) ==> e == SnapshotIdError::Id(IdError::NotUuidV7(value)),
    {
        match Id::try_from(value) {
            Ok(id) => Ok(SnapshotId(id)),
            Err(e) => Err(SnapshotIdError::Id(e)),
        }
    }

    /// The hyphenated form of the UUID.
    pub fn to_string(&self) -> (r: String)
        ensures
            r@ == hyphenated(self.spec_id()@),
    {
        self.0.to_string()
    }
}

impl From<Id> for SnapshotId {
    fn from(value: Id) -> (r: SnapshotId)
        ensures
            r.spec_id() == value,
    {
        SnapshotId(value)
    }
}

impl vstd::std_specs::convert::FromSpecImpl<Id> for SnapshotId {
    open spec fn obeys_from_spec() -> bool {
        true
    }

    closed spec fn from_spec(v: Id) -> SnapshotId {
        SnapshotId(v)
    }
}

impl Default for SnapshotId {
    /// A fresh identifier, as [`SnapshotId::new`] gives.
    fn default() -> (r: SnapshotId)
        ensures
            is_time_ordered(r.spec_id()@),
    {
        SnapshotId::new()
    }
}

impl ValueObject for SnapshotId {}

impl BlogId {
    /// A fresh blog identifier.
    pub fn new() -> (r: BlogId)
        ensures
            is_time_ordered(r.spec_value()@),
    {
        BlogId(Id::new())
    }

    /// Accepts an outside value only when it is a version 7 UUID.
    pub fn try_from(value: u128) -> (r: Result<BlogId, BlogIdError>)
        ensures
            is_time_ordered(value) <==> r is Ok,
            r matches Ok(id) ==> id.spec_value()@ == value,
            r matches Err(e) ==> e == BlogIdError::Id(IdError::NotUuidV7(value)),
    {
        match Id::try_from(value) {
            Ok(id) => Ok(BlogId(id)),
            Err(e) => Err(BlogIdError::Id(e)),
        }
    }

    /// The hyphenated form of the UUID.
    pub fn to_string(&self) -> (r: String)
        ensures
            r@ == hyphenated(self.spec_value()@),
    {
        self.0.to_string()
    }
}

impl AggregateId for BlogId {
    closed spec fn spec_value(&self) -> Id {
        self.0
    }

    fn value(self) -> (r: Id) {
        self.0
    }
}

impl From<Id> for BlogId {
    fn from(value: Id) -> (r: BlogId)
        ensures
            r.spec_value() == value,
    {
        BlogId(value)
    }
}

impl vstd::std_specs::convert::FromSpecImpl<Id> for BlogId {
    open spec fn obeys_from_spec() -> bool {
        true
    }

    closed spec fn from_spec(v: Id) -> BlogId {
        BlogId(v)
    }
}

impl Default for BlogId {
    /// A fresh identifier, as [`BlogId::new`] gives.
    fn default() -> (r: BlogId)
        ensures
            is_time_ordered(r.spec_value()@),
    {
        BlogId::new()
    }
}

impl ValueObject for BlogId {}

impl UserId {
    /// A fresh user identifier.
    pub fn new() -> (r: UserId)
        ensures
            is_time_ordered(r.spec_value()@),
    {
        UserId(Id::new())
    }

    /// Accepts an outside value only when it is a version 7 UUID.
    pub fn try_from(value: u128) -> (r: Result<UserId, UserIdError>)
        ensures
            is_time_ordered(value) <==> r is Ok,
            r matches Ok(id) ==> id.spec_value()@ == value,
            r matches Err(e) ==> e == UserIdError::Id(IdError::NotUuidV7(value)),
    {
        match Id::try_from(value) {
            Ok(id) => Ok(UserId(id)),
            Err(e) => Err(UserIdError::Id(e)),
        }
    }

    /// The hyphenated form of the UUID.
    pub fn to_string(&self) -> (r: String)
        ensures
            r@ == hyphenated(self.spec_value()@),
    {
        self.0.to_string()
    }
}

impl AggregateId for UserId {
    closed spec fn spec_value(&self) -> Id {
        self.0
    }

    fn value(self) -> (r: Id) {
        self.0
    }
}

impl From<Id> for UserId {
    fn from(value: Id) -> (r: UserId)
        ensures
            r.spec_value() == value,
    {
        UserId(value)
    }
}

impl vstd::std_specs::convert::FromSpecImpl<Id> for UserId {
    open spec fn obeys_from_spec() -> bool {
        true
    }

    closed spec fn from_spec(v: Id) -> UserId {
        UserId(v)
    }
}

impl Default for UserId {
    /// A fresh identifier, as [`UserId::new`] gives.
    fn default() -> (r: UserId)
        ensures
            is_time_ordered(r.spec_value()@),
    {
        UserId::new()
    }
}

impl ValueObject for UserId {}

} // verus!
