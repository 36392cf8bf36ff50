//! Scalar port values.

use vstd::prelude::*;

verus! {

/// The value of a scalar port: an IEEE-754 binary64 number, carried as its
/// bit pattern.
///
/// The verified core never does arithmetic on a scalar. It stores, copies and
/// compares them, and hands them on to whoever builds or retunes a processing
/// unit; two scalars are the same value exactly when their bit patterns are.
#[derive(Clone, Copy, PartialEq, Eq, Structural, Debug)]
pub struct ScalarValue {
    pub bits: u64,
}

impl ScalarValue {
    /// The scalar with the given bit pattern.
    pub fn from_bits(bits: u64) -> (r: ScalarValue)
        ensures
            r.bits == bits,
    {
        ScalarValue { bits }
    }

    /// The bit pattern of this scalar.
    pub fn to_bits(self) -> (r: u64)
        ensures
            r == self.bits,
    {
        self.bits
    }

    /// Positive zero, the value a scalar parameter has when none is declared.
    pub fn zero() -> (r: ScalarValue)
        ensures
            r.bits == 0,
    {
        ScalarValue { bits: 0 }
    }
}

} // verus!
