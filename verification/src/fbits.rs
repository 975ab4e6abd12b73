//! Bit-level view of the double-precision values that cross the bridge.
//!
//! The bridge never does arithmetic on a velocity or sensor value: it only
//! copies values and, in one place, substitutes a NaN sentinel. Each `f64`
//! is therefore carried as its IEEE 754 bit pattern in a `u64`, on which
//! "the two values are byte-for-byte equal" is plain equality and "the value
//! is NaN" is the predicate below.

use vstd::prelude::*;

verus! {

/// Bit pattern of the quiet NaN used as the "no fresh data" sentinel:
/// exponent all ones, highest fraction bit set, everything else zero.
pub const QUIET_NAN_BITS: u64 = 0x7FF8_0000_0000_0000;

/// A double is NaN exactly when its exponent bits are all ones and its
/// fraction is non-zero (IEEE 754).
pub open spec fn is_nan_bits(b: u64) -> bool {
    (b >> 52) & 0x7FF == 0x7FF && b & 0x000F_FFFF_FFFF_FFFF != 0
}

/// Runtime check of [`is_nan_bits`].
pub fn nan_bits(b: u64) -> (r: bool)
    ensures
        r == is_nan_bits(b),
{
    (b >> 52) & 0x7FF == 0x7FF && b & 0x000F_FFFF_FFFF_FFFF != 0
}

/// The sentinel stays distinguishable from a legitimate zero-velocity
/// command: neither +0.0 nor -0.0 has a NaN bit pattern, so an all-NaN
/// response can never be mistaken for "drive at zero velocity".
pub proof fn lemma_zero_is_not_nan()
    ensures
        !is_nan_bits(0x0000_0000_0000_0000),
        !is_nan_bits(0x8000_0000_0000_0000),
{
    assert(0x0000_0000_0000_0000u64 & 0x000F_FFFF_FFFF_FFFF == 0) by (bit_vector);
    assert(0x8000_0000_0000_0000u64 & 0x000F_FFFF_FFFF_FFFF == 0) by (bit_vector);
}

/// The sentinel bit pattern really denotes a NaN.
pub proof fn lemma_quiet_nan_is_nan()
    ensures
        is_nan_bits(QUIET_NAN_BITS),
{
    assert((0x7FF8_0000_0000_0000u64 >> 52) & 0x7FF == 0x7FF) by (bit_vector);
    assert(0x7FF8_0000_0000_0000u64 & 0x000F_FFFF_FFFF_FFFF != 0) by (bit_vector);
}

} // verus!
