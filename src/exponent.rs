//! The skew exponent, held as the bit pattern of an IEEE-754 binary64 value.
//!
//! A binary64 value is a sign bit, an 11-bit biased exponent and a 52-bit
//! fraction. A biased exponent of all ones marks an infinity (fraction zero)
//! or a NaN (fraction non-zero); every other pattern is a finite number.
use vstd::prelude::*;

verus! {

/// The bit pattern of the binary64 value `1.0`.
pub const ONE_BITS: u64 = 0x3FF0_0000_0000_0000;

/// The bit pattern of the binary64 value `+infinity`.
pub const POSITIVE_INFINITY_BITS: u64 = 0x7FF0_0000_0000_0000;

/// The sign bit: 1 for a negative value (or a NaN with its sign set).
pub open spec fn sign_bit(bits: u64) -> u64 {
    bits >> 63u64
}

/// The 11-bit biased exponent field.
pub open spec fn biased_exponent(bits: u64) -> u64 {
    (bits >> 52u64) & 0x7FFu64
}

/// The 52-bit fraction field.
pub open spec fn fraction(bits: u64) -> u64 {
    bits & 0x000F_FFFF_FFFF_FFFFu64
}

/// The value is a finite number: neither an infinity nor a NaN.
pub open spec fn is_finite(bits: u64) -> bool {
    biased_exponent(bits) != 0x7FF
}

/// The value is a NaN: all-ones exponent with a non-zero fraction.
pub open spec fn is_nan(bits: u64) -> bool {
    biased_exponent(bits) == 0x7FF && fraction(bits) != 0
}

/// The value is a finite number strictly greater than `1.0`.
///
/// `1.0` has biased exponent 1023 and fraction 0. A positive finite value is
/// above it when its exponent is larger, or equal with a non-zero fraction.
pub open spec fn is_above_one(bits: u64) -> bool {
    &&& is_finite(bits)
    &&& sign_bit(bits) == 0
    &&& (biased_exponent(bits) > 1023 || (biased_exponent(bits) == 1023 && fraction(bits) != 0))
}

/// Decides `is_finite` on the raw bits.
pub fn exponent_is_finite(bits: u64) -> (r: bool)
    ensures
        r == is_finite(bits),
{
    let r = bits & POSITIVE_INFINITY_BITS != POSITIVE_INFINITY_BITS;
    assert(r == is_finite(bits)) by (bit_vector)
        requires
            r == (bits & 0x7FF0_0000_0000_0000u64 != 0x7FF0_0000_0000_0000u64),
    ;
    r
}

/// Decides `is_above_one` on the raw bits: among non-negative finite values
/// the order of the numbers is the order of their bit patterns.
pub fn exponent_is_above_one(bits: u64) -> (r: bool)
    ensures
        r == is_above_one(bits),
{
    let r = ONE_BITS < bits && bits < POSITIVE_INFINITY_BITS;
    assert(r == is_above_one(bits)) by (bit_vector)
        requires
            r == (0x3FF0_0000_0000_0000u64 < bits && bits < 0x7FF0_0000_0000_0000u64),
    ;
    r
}

} // verus!
