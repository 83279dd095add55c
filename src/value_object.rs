use vstd::prelude::*;

verus! {

/// A value compared by what it holds rather than by identity.
pub trait ValueObject: Clone + Eq {}

} // verus!
