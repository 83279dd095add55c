use vstd::prelude::*;

use crate::value_object::ValueObject;

verus! {

/// Why a version could not be built or advanced.
#[derive(Debug, Clone, Copy, PartialEq, Eq, Structural)]
pub enum AggregateVersionError {
    /// The raw value handed in was below zero.
    NegativeValue(i64),
    /// Advancing would go past `i64::MAX`.
    Overflow,
}

/// The position of an aggregate in its history: the number of events that
/// produced its current state. Zero means that no event has been applied.
#[derive(Debug, Clone, Copy, PartialEq, Eq, Hash, PartialOrd, Ord, Structural)]
pub struct AggregateVersion(i64);

/// The largest version that can be represented.
pub open spec fn max_version() -> int {
    i64::MAX as int
}

/// The decimal digit that stands for `d`.
pub open spec fn digit_char(d: nat) -> char
    recommends
        d < 10,
{
    seq!['0', '1', '2', '3', '4', '5', '6', '7', '8', '9'][d as int]
}

/// The decimal notation of `n`, most significant digit first, with no sign
/// and no leading zeros.
pub open spec fn decimal_digits(n: nat) -> Seq<char>
    decreases n,
{
    if n < 10 {
        seq![digit_char(n)]
    } else {
        decimal_digits(n / 10).push(digit_char(n % 10))
    }
}

/// Relies on the standard `ToString` of `i64` (through `Display`): a value
/// that is not negative is written in decimal, without sign or leading zeros.
#[verifier::external_body]
fn decimal_string(value: i64) -> (r: String)
    requires
        value >= 0,
    ensures
        r@ == decimal_digits(value as nat),
{
    value.to_string()
}

impl View for AggregateVersion {
    type V = int;

    closed spec fn view(&self) -> int {
        self.0 as int
    }
}

impl AggregateVersion {
    #[verifier::type_invariant]
    spec fn non_negative(self) -> bool {
        self.0 >= 0
    }

    /// The following version, in specifications.
    pub closed spec fn spec_next(self) -> AggregateVersion {
        AggregateVersion((self.0 + 1) as i64)
    }

    /// The following version is one more, wherever it can be represented.
    pub proof fn lemma_next(self)
        requires
            self@ < max_version(),
        ensures
            self.spec_next()@ == self@ + 1,
    {
    }

    /// The version of an aggregate to which nothing has happened yet.
    pub fn new() -> (r: AggregateVersion)
        ensures
            r@ == 0,
    {
        AggregateVersion(0)
    }

    /// The version as a plain integer.
    pub fn value(self) -> (r: i64)
        ensures
            r >= 0,
            r as int == self@,
    {
        proof {
            use_type_invariant(&self);
        }
        self.0
    }

    /// The following version. Only for a version below the maximum; the
    /// aggregate protocol advances with [`AggregateVersion::try_next`].
    pub fn next(self) -> (r: AggregateVersion)
        requires
            self@ < max_version(),
        ensures
            r == self.spec_next(),
            r@ == self@ + 1,
    {
        proof {
            use_type_invariant(&self);
        }
        AggregateVersion(self.0 + 1)
    }

    /// The following version, or `None` at the maximum.
    pub fn checked_next(self) -> (r: Option<AggregateVersion>)
        ensures
            self@ < max_version() <==> r is Some,
            r matches Some(n) ==> n == self.spec_next() && n@ == self@ + 1,
    {
        proof {
            use_type_invariant(&self);
        }
        match self.0.checked_add(1) {
            Some(v) => Some(AggregateVersion(v)),
            None => None,
        }
    }

    /// The following version, or `Overflow` at the maximum.
    pub fn try_next(self) -> (r: Result<AggregateVersion, AggregateVersionError>)
        ensures
            self@ < max_version() <==> r is Ok,
            r matches Ok(n) ==> n == self.spec_next() && n@ == self@ + 1,
            r matches Err(e) ==> e == AggregateVersionError::Overflow,
    {
        match self.checked_next() {
            Some(n) => Ok(n),
            None => Err(AggregateVersionError::Overflow),
        }
    }

    /// Builds a version from a raw integer, refusing a negative one.
    pub fn try_from(value: i64) -> (r: Result<AggregateVersion, AggregateVersionError>)
        ensures
            value >= 0 <==> r is Ok,
            r matches Ok(v) ==> v@ == value as int,
            r matches Err(e) ==> e == AggregateVersionError::NegativeValue(value),
    {
        if value < 0 {
            Err(AggregateVersionError::NegativeValue(value))
        } else {
            Ok(AggregateVersion(value))
        }
    }

    /// The version in decimal notation.
    pub fn to_string(&self) -> (r: String)
        ensures
            r@ == decimal_digits(self@ as nat),
    {
        decimal_string(self.value())
    }
}

impl From<AggregateVersion> for i64 {
    fn from(value: AggregateVersion) -> (r: i64) {
        value.value()
    }
}

impl vstd::std_specs::convert::FromSpecImpl<AggregateVersion> for i64 {
    open spec fn obeys_from_spec() -> bool {
        true
    }

    open spec fn from_spec(v: AggregateVersion) -> i64 {
        v@ as i64
    }
}

impl ValueObject for AggregateVersion {}

} // verus!
