use vstd::prelude::*;

verus! {

/// Why a value drawn from the fuzzer's input is refused.
#[derive(Debug, Clone, Copy, PartialEq, Eq)]
pub enum ArbitraryError {
    /// The input held too little data to build the value.
    NotEnoughData,
    /// The drawn data does not describe a valid value.
    IncorrectFormat,
}

/// Why a value is refused as a datastore identifier.
#[derive(Debug, Clone, Copy, PartialEq, Eq)]
pub enum ValidationError {
    /// The value is longer than an identifier may be.
    ValueTooLong,
}

} // verus!
