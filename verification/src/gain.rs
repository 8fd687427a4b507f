//! Output gain.
//!
//! The audio engine takes its gain as an IEEE-754 single. The session only
//! stores the value and decides whether it lies between silence and full
//! volume, so a gain travels through this crate as the bit pattern of that
//! single, and the decision is made on the pattern's three fields.

use vstd::prelude::*;

verus! {

/// Bit pattern of the gain 1.0 (full volume).
pub const UNITY_BITS: u32 = 0x3F80_0000;

/// Bit pattern of negative zero.
pub const NEGATIVE_ZERO_BITS: u32 = 0x8000_0000;

/// The sign field of a single: 0 for positive, 1 for negative.
pub open spec fn sign_field(bits: u32) -> u32 {
    bits >> 31
}

/// The biased exponent field of a single; 127 stands for a factor of one and
/// 255 marks infinities and NaNs.
pub open spec fn exponent_field(bits: u32) -> u32 {
    (bits >> 23) & 0xFF
}

/// The fraction field of a single.
pub open spec fn fraction_field(bits: u32) -> u32 {
    bits & 0x7F_FFFF
}

/// Whether the single with this bit pattern compares as at least 0.0 and at
/// most 1.0. Infinities and NaNs never do; negative zero does, because it
/// compares equal to zero.
pub open spec fn in_unit_interval(bits: u32) -> bool {
    let sign = sign_field(bits);
    let exponent = exponent_field(bits);
    let fraction = fraction_field(bits);
    ||| sign == 0 && exponent < 127
    ||| sign == 0 && exponent == 127 && fraction == 0
    ||| sign == 1 && exponent == 0 && fraction == 0
}

/// Among bit patterns, the unit interval is the range up to `UNITY_BITS`
/// together with negative zero.
pub proof fn unit_interval_as_range(bits: u32)
    ensures
        in_unit_interval(bits) <==> (bits <= UNITY_BITS || bits == NEGATIVE_ZERO_BITS),
{
    assert(((bits >> 31) == 0 && ((bits >> 23) & 0xFF) < 127) || ((bits >> 31) == 0 && ((bits
        >> 23) & 0xFF) == 127 && (bits & 0x7F_FFFF) == 0) || ((bits >> 31) == 1 && ((bits >> 23)
        & 0xFF) == 0 && (bits & 0x7F_FFFF) == 0) <==> (bits <= 0x3F80_0000u32 || bits
        == 0x8000_0000u32)) by (bit_vector);
}

/// A linear output gain, held as the bit pattern of an IEEE-754 single.
#[derive(Clone, Copy, Debug, PartialEq, Eq)]
pub struct Gain {
    /// The bit pattern: sign, exponent and fraction of the single.
    pub bits: u32,
}

impl Gain {
    /// Full volume, the gain of a fresh session.
    pub fn unity() -> (gain: Gain)
        ensures
            gain.bits == UNITY_BITS,
            in_unit_interval(gain.bits),
    {
        proof {
            unit_interval_as_range(UNITY_BITS);
        }
        Gain { bits: UNITY_BITS }
    }

    /// The gain with the given bit pattern.
    pub fn from_bits(bits: u32) -> (gain: Gain)
        ensures
            gain.bits == bits,
    {
        Gain { bits }
    }

    /// The bit pattern of this gain.
    pub fn to_bits(&self) -> (bits: u32)
        ensures
            bits == self.bits,
    {
        self.bits
    }

    /// Whether the engine accepts this gain: it must lie between 0.0 and 1.0.
    pub fn is_in_range(&self) -> (accepted: bool)
        ensures
            accepted == in_unit_interval(self.bits),
    {
        proof {
            unit_interval_as_range(self.bits);
        }
        self.bits <= UNITY_BITS || self.bits == NEGATIVE_ZERO_BITS
    }
}

} // verus!
