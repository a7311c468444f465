//! Bit-level model of the IEEE-754 double-precision scalars that flow
//! through the trainer.
//!
//! The library never computes with floating-point values itself: every
//! scalar is carried as its 64-bit representation.  The few operations whose
//! behaviour is an exact, short function of the representation — sign tests,
//! negation, absolute value, ordering, binarization at the zero threshold —
//! are defined here and verified against their specifications.  Everything
//! else (rounding arithmetic) is delegated to the host through the
//! `Arith` capability.

use vstd::prelude::*;

verus! {

/// Sign bit of a double-precision representation.
pub const SIGN_MASK: u64 = 0x8000_0000_0000_0000;

/// Everything but the sign bit (exponent and fraction).
pub const MAG_MASK: u64 = 0x7FFF_FFFF_FFFF_FFFF;

/// Exponent field.
pub const EXP_MASK: u64 = 0x7FF0_0000_0000_0000;

/// Fraction field.
pub const FRAC_MASK: u64 = 0x000F_FFFF_FFFF_FFFF;

/// Representation of `1.0`.
pub const ONE_BITS: u64 = 0x3FF0_0000_0000_0000;

/// Representation of `-1.0`.
pub const NEG_ONE_BITS: u64 = 0xBFF0_0000_0000_0000;

/// Representation of `0.5`.
pub const HALF_BITS: u64 = 0x3FE0_0000_0000_0000;

/// Representation of `0.1` (the grid padding fraction).
pub const TENTH_BITS: u64 = 0x3FB9_9999_9999_999A;

/// Representation of `+0.0`.
pub const ZERO_BITS: u64 = 0;

/// A quiet NaN representation.
pub const QNAN_BITS: u64 = 0x7FF8_0000_0000_0000;

/// Representation of `2^511`: the magnitude up to which an axis range
/// `hi - lo` stays clear of overflow.
pub const HUGE_BITS: u64 = 0x5FE0_0000_0000_0000;

/// The represented value is a NaN: exponent all ones, fraction non-zero.
pub open spec fn spec_is_nan(b: u64) -> bool {
    b & EXP_MASK == EXP_MASK && b & FRAC_MASK != 0
}

/// The represented value is a zero (`+0.0` or `-0.0`).
pub open spec fn spec_is_zero(b: u64) -> bool {
    b & MAG_MASK == 0
}

/// The represented value compares strictly greater than zero.
///
/// This is exactly the IEEE-754 comparison `v > 0.0`: the sign bit is
/// clear, the value is not `+0.0`, and it is not a NaN.
pub open spec fn spec_is_pos(b: u64) -> bool {
    b & SIGN_MASK == 0 && b != 0 && !spec_is_nan(b)
}

/// Sign-folded key under which the IEEE-754 order on non-NaN values is the
/// unsigned integer order (with the one exception of the two zeros, which
/// the key separates but the float order identifies).
pub open spec fn spec_order_key(b: u64) -> u64 {
    if b & SIGN_MASK == SIGN_MASK {
        !b
    } else {
        b | SIGN_MASK
    }
}

/// IEEE-754 `<` on representations: false when either operand is a NaN or
/// both are zeros, otherwise the order of the sign-folded keys.
pub open spec fn spec_lt(a: u64, b: u64) -> bool {
    &&& !spec_is_nan(a)
    &&& !spec_is_nan(b)
    &&& !(spec_is_zero(a) && spec_is_zero(b))
    &&& spec_order_key(a) < spec_order_key(b)
}

/// IEEE-754 negation: flip the sign bit.
pub open spec fn spec_neg(b: u64) -> u64 {
    b ^ SIGN_MASK
}

/// IEEE-754 absolute value: clear the sign bit.
pub open spec fn spec_abs(b: u64) -> u64 {
    b & MAG_MASK
}

/// Binarization at the fixed decision threshold of zero: values strictly
/// greater than zero become `1.0`, everything else becomes `-1.0`.
pub open spec fn spec_binarize(b: u64) -> u64 {
    if spec_is_pos(b) {
        ONE_BITS
    } else {
        NEG_ONE_BITS
    }
}

/// The represented value lies in the closed interval `[0.0, 1.0]`: either a
/// non-negative representation no greater than that of `1.0`, or `-0.0`.
pub open spec fn spec_in_unit(b: u64) -> bool {
    b <= ONE_BITS || b == SIGN_MASK
}

/// The two representations bound a well-formed axis: neither is a NaN,
/// `hi` does not compare below `lo`, and both magnitudes stay at most
/// `2^511`, so the axis range cannot overflow.
pub open spec fn spec_axis_ok(lo: u64, hi: u64) -> bool {
    &&& !spec_is_nan(lo)
    &&& !spec_is_nan(hi)
    &&& !spec_lt(hi, lo)
    &&& spec_abs(lo) <= HUGE_BITS
    &&& spec_abs(hi) <= HUGE_BITS
}

/// The represented value lies in the closed interval of the axis under
/// the IEEE order: it is not a NaN, does not compare below `lo` and does
/// not compare above `hi`.
pub open spec fn spec_within_axis(v: u64, lo: u64, hi: u64) -> bool {
    &&& !spec_is_nan(v)
    &&& !spec_lt(v, lo)
    &&& !spec_lt(hi, v)
}

/// The quiet NaN constant really is a NaN.
pub proof fn lemma_qnan_is_nan()
    ensures
        spec_is_nan(QNAN_BITS),
{
    assert(0x7FF8_0000_0000_0000u64 & 0x7FF0_0000_0000_0000u64 == 0x7FF0_0000_0000_0000u64)
        by (bit_vector);
    assert(0x7FF8_0000_0000_0000u64 & 0x000F_FFFF_FFFF_FFFFu64 != 0u64) by (bit_vector);
}

/// The represented value is a NaN.
#[verifier::when_used_as_spec(spec_is_nan)]
pub fn is_nan(b: u64) -> (r: bool)
    ensures
        r == spec_is_nan(b),
{
    b & EXP_MASK == EXP_MASK && b & FRAC_MASK != 0
}

/// The represented value compares strictly greater than zero.
#[verifier::when_used_as_spec(spec_is_pos)]
pub fn is_pos(b: u64) -> (r: bool)
    ensures
        r == spec_is_pos(b),
{
    b & SIGN_MASK == 0 && b != 0 && !is_nan(b)
}

/// IEEE-754 `<` on representations.
#[verifier::when_used_as_spec(spec_lt)]
pub fn lt(a: u64, b: u64) -> (r: bool)
    ensures
        r == spec_lt(a, b),
{
    let ka: u64 = if a & SIGN_MASK == SIGN_MASK {
        !a
    } else {
        a | SIGN_MASK
    };
    let kb: u64 = if b & SIGN_MASK == SIGN_MASK {
        !b
    } else {
        b | SIGN_MASK
    };
    !is_nan(a) && !is_nan(b) && !(a & MAG_MASK == 0 && b & MAG_MASK == 0) && ka < kb
}

/// IEEE-754 negation.
#[verifier::when_used_as_spec(spec_neg)]
pub fn neg_bits(b: u64) -> (r: u64)
    ensures
        r == spec_neg(b),
{
    b ^ SIGN_MASK
}

/// IEEE-754 absolute value.
#[verifier::when_used_as_spec(spec_abs)]
pub fn abs_bits(b: u64) -> (r: u64)
    ensures
        r == spec_abs(b),
{
    b & MAG_MASK
}

/// Binarization at the zero threshold.
#[verifier::when_used_as_spec(spec_binarize)]
pub fn binarize(b: u64) -> (r: u64)
    ensures
        r == spec_binarize(b),
{
    if is_pos(b) {
        ONE_BITS
    } else {
        NEG_ONE_BITS
    }
}

} // verus!
