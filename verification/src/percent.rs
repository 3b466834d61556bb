//! Percentages as they travel over the bus: double-precision numbers,
//! carried here by their bit pattern.

use vstd::prelude::*;

verus! {

/// Bit pattern of the double `0.0`.
pub const ZERO_BITS: u64 = 0;

/// Bit pattern of the double `-0.0`.
pub const NEGATIVE_ZERO_BITS: u64 = 0x8000_0000_0000_0000;

/// Bit pattern of the double `100.0`.
pub const HUNDRED_BITS: u64 = 0x4059_0000_0000_0000;

/// A percentage, held as the bit pattern of an IEEE 754 double-precision
/// number (what `to_bits` gives and `from_bits` takes on such a number).
///
/// Two values are equal when their bits are equal.  Nothing is computed
/// with the number: it is stored, handed on and shown.
#[derive(Clone, Copy, Debug, PartialEq, Eq, Structural)]
pub struct Percent {
    pub bits: u64,
}

impl Percent {
    /// `true` when the number lies in the closed range from 0 to 100.
    ///
    /// Among doubles with a clear sign bit the order of the numbers is the
    /// order of their bit patterns, so these are the patterns up to that of
    /// `100.0`; the only other number in the range is `-0.0`. Infinities and
    /// NaNs have larger patterns and are out of range.
    pub open spec fn in_range(self) -> bool {
        self.bits <= HUNDRED_BITS || self.bits == NEGATIVE_ZERO_BITS
    }

    /// The percentage whose double has the given bits.
    pub fn from_bits(bits: u64) -> (p: Percent)
        ensures
            p.bits == bits,
    {
        Percent { bits }
    }

    /// The bits of the percentage's double.
    pub fn to_bits(self) -> (bits: u64)
        ensures
            bits == self.bits,
    {
        self.bits
    }

    /// The percentage `0.0`.
    pub fn zero() -> (p: Percent)
        ensures
            p.bits == ZERO_BITS,
            p.in_range(),
    {
        Percent { bits: ZERO_BITS }
    }

    /// Tells whether the number lies in the closed range from 0 to 100.
    pub fn is_in_range(self) -> (ok: bool)
        ensures
            ok == self.in_range(),
    {
        self.bits <= HUNDRED_BITS || self.bits == NEGATIVE_ZERO_BITS
    }
}

} // verus!
