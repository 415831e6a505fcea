//! Numbers that the codec carries without computing on them.

use vstd::prelude::*;

verus! {

/// A double-precision number, held as its IEEE 754 bit pattern: sign in the
/// top bit, then eleven bits of exponent and fifty-two of fraction.
#[derive(Clone, Copy, Debug, PartialEq, Eq, Structural)]
pub struct Number64 {
    pub bits: u64,
}

/// The bit pattern of positive infinity, the largest pattern of a positive
/// number.
pub const POSITIVE_INFINITY_BITS: u64 = 0x7FF0_0000_0000_0000;

impl Number64 {
    /// The number is greater than zero: its sign bit is clear, it is not
    /// zero, and it is not a NaN. Patterns of positive numbers are ordered
    /// as the numbers are.
    pub open spec fn is_positive(self) -> bool {
        0 < self.bits <= POSITIVE_INFINITY_BITS
    }

    /// Whether the number is greater than zero.
    pub fn positive(&self) -> (r: bool)
        ensures
            r == self.is_positive(),
    {
        0 < self.bits && self.bits <= POSITIVE_INFINITY_BITS
    }

    /// The number with the given bit pattern.
    pub fn from_bits(bits: u64) -> (r: Number64)
        ensures
            r.bits == bits,
    {
        Number64 { bits }
    }
}

/// A number that is present only when it is positive: documents store zero
/// or less for a dimension that was never set.
pub open spec fn positive_or_absent(n: Option<Number64>) -> Option<Number64> {
    match n {
        Some(v) => if v.is_positive() {
            Some(v)
        } else {
            None
        },
        None => None,
    }
}

} // verus!
