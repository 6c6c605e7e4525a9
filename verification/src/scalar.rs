//! Classification of IEEE-754 binary64 scalars by their bit patterns.
//!
//! A `u64` here is always the bit pattern of a binary64 value: 1 sign bit,
//! 11 biased-exponent bits, 52 fraction bits. Every predicate of this
//! module is exact bit logic, so the classification policy that the whole
//! library rests on is verified rather than assumed.

use vstd::prelude::*;
use crate::error::RcgalError;

verus! {

/// The biased exponent field of a binary64 bit pattern.
pub open spec fn exp_field(b: u64) -> u64 {
    (b >> 52) & 0x7ff
}

/// The fraction (trailing significand) field of a binary64 bit pattern.
pub open spec fn frac_field(b: u64) -> u64 {
    b & 0x000f_ffff_ffff_ffff
}

/// The bit pattern with the sign bit cleared: the pattern of the
/// value's magnitude.
pub open spec fn abs_bits(b: u64) -> u64 {
    b & 0x7fff_ffff_ffff_ffff
}

/// NaN: exponent field all ones, fraction nonzero.
pub open spec fn spec_is_nan(b: u64) -> bool {
    exp_field(b) == 0x7ff && frac_field(b) != 0
}

/// Positive or negative infinity: exponent field all ones, fraction zero.
pub open spec fn spec_is_infinite(b: u64) -> bool {
    exp_field(b) == 0x7ff && frac_field(b) == 0
}

/// Finite: neither infinite nor NaN (zero, subnormal and normal values).
pub open spec fn spec_is_finite(b: u64) -> bool {
    exp_field(b) != 0x7ff
}

/// Positive or negative zero.
pub open spec fn spec_is_zero(b: u64) -> bool {
    exp_field(b) == 0 && frac_field(b) == 0
}

/// Subnormal: exponent field zero, fraction nonzero.
pub open spec fn spec_is_subnormal(b: u64) -> bool {
    exp_field(b) == 0 && frac_field(b) != 0
}

/// Normal: finite with full leading-bit precision (excludes zero,
/// subnormals, infinities and NaN).
pub open spec fn spec_is_normal(b: u64) -> bool {
    0 < exp_field(b) && exp_field(b) < 0x7ff
}

/// The magnitude bit pattern of the larger-magnitude operand. For non-NaN
/// binary64 values, magnitude order is exactly unsigned order on the
/// sign-cleared bit patterns, so taking the larger of `abs_bits` is taking
/// the larger magnitude.
pub open spec fn max_mag_bits(a: u64, b: u64) -> u64 {
    if abs_bits(a) < abs_bits(b) {
        abs_bits(b)
    } else {
        abs_bits(a)
    }
}

/// True exactly on finite bit patterns.
#[verifier::when_used_as_spec(spec_is_finite)]
pub fn is_finite(b: u64) -> (r: bool)
    ensures
        r == spec_is_finite(b),
{
    ((b >> 52) & 0x7ff) != 0x7ff
}

/// True exactly on NaN bit patterns.
#[verifier::when_used_as_spec(spec_is_nan)]
pub fn is_nan(b: u64) -> (r: bool)
    ensures
        r == spec_is_nan(b),
{
    ((b >> 52) & 0x7ff) == 0x7ff && (b & 0x000f_ffff_ffff_ffff) != 0
}

/// True exactly on infinite bit patterns.
#[verifier::when_used_as_spec(spec_is_infinite)]
pub fn is_infinite(b: u64) -> (r: bool)
    ensures
        r == spec_is_infinite(b),
{
    ((b >> 52) & 0x7ff) == 0x7ff && (b & 0x000f_ffff_ffff_ffff) == 0
}

/// True exactly on zero bit patterns (either sign).
#[verifier::when_used_as_spec(spec_is_zero)]
pub fn is_zero(b: u64) -> (r: bool)
    ensures
        r == spec_is_zero(b),
{
    ((b >> 52) & 0x7ff) == 0 && (b & 0x000f_ffff_ffff_ffff) == 0
}

/// True exactly on subnormal bit patterns.
#[verifier::when_used_as_spec(spec_is_subnormal)]
pub fn is_subnormal(b: u64) -> (r: bool)
    ensures
        r == spec_is_subnormal(b),
{
    ((b >> 52) & 0x7ff) == 0 && (b & 0x000f_ffff_ffff_ffff) != 0
}

/// True exactly on normal bit patterns.
#[verifier::when_used_as_spec(spec_is_normal)]
pub fn is_normal(b: u64) -> (r: bool)
    ensures
        r == spec_is_normal(b),
{
    let e: u64 = (b >> 52) & 0x7ff;
    0 < e && e < 0x7ff
}

/// Every binary64 bit pattern belongs to exactly one of the five classes:
/// NaN, infinite, zero, subnormal, normal; the finite patterns are
/// exactly the zero, subnormal and normal ones.
pub proof fn lemma_class_partition(b: u64)
    ensures
        spec_is_nan(b) || spec_is_infinite(b) || spec_is_zero(b) || spec_is_subnormal(b)
            || spec_is_normal(b),
        spec_is_finite(b) <==> (spec_is_zero(b) || spec_is_subnormal(b) || spec_is_normal(b)),
        spec_is_nan(b) ==> !spec_is_infinite(b) && !spec_is_finite(b),
        spec_is_infinite(b) ==> !spec_is_nan(b) && !spec_is_finite(b),
        spec_is_zero(b) ==> !spec_is_subnormal(b) && !spec_is_normal(b),
        spec_is_subnormal(b) ==> !spec_is_zero(b) && !spec_is_normal(b),
        spec_is_normal(b) ==> !spec_is_zero(b) && !spec_is_subnormal(b),
{
    assert(exp_field(b) <= 0x7ff) by (bit_vector);
}

/// Classifies a computed Euclidean length or distance: a finite result is
/// returned as is; an infinite result cannot be represented and fails with
/// `Overflow`. A NaN result cannot arise from finite operands and is ruled
/// out by the caller, not mapped to an error.
pub fn classify_norm(bits: u64) -> (r: Result<u64, RcgalError>)
    requires
        !spec_is_nan(bits),
    ensures
        r is Ok <==> spec_is_finite(bits),
        r matches Ok(n) ==> n == bits,
        r matches Err(e) ==> e == RcgalError::Overflow && spec_is_infinite(bits),
{
    if is_finite(bits) {
        Ok(bits)
    } else {
        Err(RcgalError::Overflow)
    }
}

} // verus!
