//! Errors raised when a card is constructed from a numeric value that no
//! card of the requested kind carries.

use vstd::prelude::*;

verus! {

/// Common payload of the construction errors: the offending value.
#[derive(Debug, PartialEq, Eq, Structural)]
pub struct TarotValueError {
    value: u8,
}

impl TarotValueError {
    /// The value that was rejected.
    pub closed spec fn spec_value(&self) -> u8 {
        self.value
    }

    pub fn new(value: u8) -> (r: Self)
        ensures
            r.spec_value() == value,
    {
        TarotValueError { value }
    }

    /// Returns the rejected value.
    pub fn value(&self) -> (r: u8)
        ensures
            r == self.spec_value(),
    {
        self.value
    }
}

/// Error raised when a pip card is asked for a value outside 1..=10:
/// the value does not represent any pip card.
#[derive(Debug, PartialEq, Eq, Structural)]
pub struct PipValueError {
    inner: TarotValueError,
}

impl PipValueError {
    /// The value that was rejected.
    pub closed spec fn spec_value(&self) -> u8 {
        self.inner.spec_value()
    }

    pub fn new(value: u8) -> (r: Self)
        ensures
            r.spec_value() == value,
    {
        PipValueError { inner: TarotValueError::new(value) }
    }

    /// Returns the rejected value.
    pub fn value(&self) -> (r: u8)
        ensures
            r == self.spec_value(),
    {
        self.inner.value()
    }
}

/// Error raised when a trump card is asked for a value outside 1..=21:
/// the value does not represent any trump card.
#[derive(Debug, PartialEq, Eq, Structural)]
pub struct TrumpValueError {
    inner: TarotValueError,
}

impl TrumpValueError {
    /// The value that was rejected.
    pub closed spec fn spec_value(&self) -> u8 {
        self.inner.spec_value()
    }

    pub fn new(value: u8) -> (r: Self)
        ensures
            r.spec_value() == value,
    {
        TrumpValueError { inner: TarotValueError::new(value) }
    }

    /// Returns the rejected value.
    pub fn value(&self) -> (r: u8)
        ensures
            r == self.spec_value(),
    {
        self.inner.value()
    }
}

} // verus!
