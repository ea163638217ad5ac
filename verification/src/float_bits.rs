//! Bit-level stepping of IEEE 754 binary64 values.

use vstd::prelude::*;

verus! {

/// Bit pattern of `-0.0`, which is also the sign bit.
pub const SIGN_BIT: u64 = 0x8000_0000_0000_0000;

/// Bit pattern of negative infinity.
pub const NEG_INFINITY_BITS: u64 = 0xFFF0_0000_0000_0000;

/// Bit pattern of positive infinity.
pub const POS_INFINITY_BITS: u64 = 0x7FF0_0000_0000_0000;

/// The magnitude (all bits but the sign) of a binary64 bit pattern.
pub open spec fn magnitude(bits: u64) -> int {
    if bits >= SIGN_BIT {
        bits - SIGN_BIT
    } else {
        bits as int
    }
}

/// Whether a bit pattern encodes a NaN.
pub open spec fn is_nan_bits(bits: u64) -> bool {
    magnitude(bits) > POS_INFINITY_BITS
}

/// Whether the value encoded by `bits` compares `<= -0.0` as a float
/// (true for both zeros, every negative number and negative infinity).
pub open spec fn le_negative_zero(bits: u64) -> bool {
    bits == 0 || (SIGN_BIT <= bits && bits <= NEG_INFINITY_BITS)
}

/// Position of a non-NaN value in IEEE 754 total order, with `-0.0` just
/// below `+0.0`: consecutive representable values have consecutive keys.
pub open spec fn total_order_key(bits: u64) -> int {
    if bits >= SIGN_BIT {
        -magnitude(bits) - 1
    } else {
        bits as int
    }
}

/// The bit pattern of the next smaller representable value, as the player
/// computes it: `+0.0` steps to `-0.0`, `-inf` stays, values `<= -0.0` grow
/// in magnitude and everything else shrinks in magnitude.
pub open spec fn prev_bits_spec(bits: u64) -> u64 {
    if bits == 0 {
        SIGN_BIT
    } else if bits == NEG_INFINITY_BITS {
        bits
    } else if le_negative_zero(bits) {
        (bits + 1) as u64
    } else {
        (bits - 1) as u64
    }
}

/// Bits of the next smallest representable `f64` below the value with bits
/// `bits`; for example the bits of `3.0` map to the bits of
/// `2.9999999999999996`.
pub fn prev_f64_bits(bits: u64) -> (prev: u64)
    ensures
        prev == prev_bits_spec(bits),
{
    if bits == 0 {
        SIGN_BIT
    } else if bits == NEG_INFINITY_BITS {
        bits
    } else if bits >= SIGN_BIT && bits <= NEG_INFINITY_BITS {
        bits + 1
    } else {
        bits - 1
    }
}

/// Stepping down: for every value that is neither NaN nor negative infinity,
/// the previous value is not NaN and sits exactly one place lower in IEEE
/// total order; negative infinity is left where it is.
pub proof fn lemma_prev_is_one_step_down(bits: u64)
    requires
        !is_nan_bits(bits),
    ensures
        bits != NEG_INFINITY_BITS ==> !is_nan_bits(prev_bits_spec(bits)) && total_order_key(
            prev_bits_spec(bits),
        ) == total_order_key(bits) - 1,
        bits == NEG_INFINITY_BITS ==> prev_bits_spec(bits) == bits,
{
}

} // verus!
