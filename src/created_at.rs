use vstd::prelude::*;

use crate::value_object::ValueObject;

verus! {

/// Relies on chrono's `Utc::now`, read back as whole seconds since the Unix
/// epoch (`DateTime::timestamp`) and the nanoseconds past that second
/// (`DateTime::timestamp_subsec_nanos`). Nothing is promised of the instant.
#[verifier::external_body]
fn utc_now() -> (r: (i64, u32)) {
    let now = chrono::Utc::now();
    (now.timestamp(), now.timestamp_subsec_nanos())
}

/// The text that chrono writes for the UTC instant `seconds` after the Unix
/// epoch plus `nanos` nanoseconds (date, time of day, fraction, `UTC`).
pub uninterp spec fn utc_text(seconds: i64, nanos: u32) -> Seq<char>;

/// Relies on chrono's `DateTime::from_timestamp`, which builds the instant
/// or gives `None` outside the range it represents, and on the `Display` of
/// `DateTime<Utc>`, whose text depends on the instant alone.
#[verifier::external_body]
fn utc_display(seconds: i64, nanos: u32) -> (r: Option<String>)
    ensures
        r matches Some(text) ==> text@ == utc_text(seconds, nanos),
{
    match chrono::DateTime::from_timestamp(seconds, nanos) {
        Some(instant) => Some(instant.to_string()),
        None => None,
    }
}

/// A UTC instant at which a record was created: seconds since the Unix
/// epoch and the nanoseconds past that second.
#[derive(Debug, Clone, Copy, PartialEq, Eq, Hash, PartialOrd, Ord, Structural)]
pub struct CreatedAt {
    seconds: i64,
    nanos: u32,
}

impl View for CreatedAt {
    type V = (i64, u32);

    closed spec fn view(&self) -> (i64, u32) {
        (self.seconds, self.nanos)
    }
}

impl CreatedAt {
    /// The current instant.
    pub fn now() -> (r: CreatedAt) {
        let (seconds, nanos) = utc_now();
        CreatedAt { seconds, nanos }
    }

    /// The instant `seconds` after the Unix epoch, plus `nanos` nanoseconds.
    pub fn from_timestamp(seconds: i64, nanos: u32) -> (r: CreatedAt)
        ensures
            r@ == (seconds, nanos),
    {
        CreatedAt { seconds, nanos }
    }

    /// Whole seconds since the Unix epoch.
    pub fn seconds(self) -> (r: i64)
        ensures
            r == self@.0,
    {
        self.seconds
    }

    /// The instant as chrono writes it, or `None` for one outside the range
    /// that chrono represents.
    pub fn to_string(&self) -> (r: Option<String>)
        ensures
            r matches Some(text) ==> text@ == utc_text(self@.0, self@.1),
    {
        utc_display(self.seconds, self.nanos)
    }

    /// Nanoseconds past the whole second.
    pub fn subsec_nanos(self) -> (r: u32)
        ensures
            r == self@.1,
    {
        self.nanos
    }
}

impl Default for CreatedAt {
    /// The current instant, as [`CreatedAt::now`] gives.
    fn default() -> (r: CreatedAt) {
        CreatedAt::now()
    }
}

impl ValueObject for CreatedAt {}

} // verus!
