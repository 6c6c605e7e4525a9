use vstd::prelude::*;

verus! {

/// Error type for the rcgal crate.
///
/// The three kinds are mutually exclusive signals: every validating
/// operation either succeeds or fails with exactly one of them.
#[derive(Clone, Copy, Debug, PartialEq, Eq, Structural, Hash)]
pub enum RcgalError {
    /// One of the input arguments is not finite.
    NotFiniteInput,
    /// One of the input arguments does not meet the requirements.
    InvalidInput,
    /// The result cannot be represented in the output type.
    Overflow,
}

impl RcgalError {
    /// A human-readable name for the error kind.
    pub fn describe(&self) -> (r: &'static str)
        ensures
            *self == RcgalError::NotFiniteInput ==> r@ == "NotFiniteInput"@,
            *self == RcgalError::InvalidInput ==> r@ == "InvalidInput"@,
            *self == RcgalError::Overflow ==> r@ == "Overflow"@,
    {
        match self {
            RcgalError::NotFiniteInput => "NotFiniteInput",
            RcgalError::InvalidInput => "InvalidInput",
            RcgalError::Overflow => "Overflow",
        }
    }
}

} // verus!
