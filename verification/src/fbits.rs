use vstd::prelude::*;
use const_soft_float::soft_f32::SoftF32;

verus! {

// IEEE-754 binary32 scalars are carried through the library as their raw bit
// patterns (`u32`). The verifier reasons about the bit patterns; the
// arithmetic itself is performed by a soft-float implementation with the
// exact IEEE semantics, behind the trusted wrappers below.

/// Bit pattern of `0.0`.
pub const F32_ZERO: u32 = 0x0000_0000;
/// Bit pattern of `1.0`.
pub const F32_ONE: u32 = 0x3F80_0000;
/// Bit pattern of `-1.0`.
pub const F32_MINUS_ONE: u32 = 0xBF80_0000;
/// Bit pattern of `0.5`.
pub const F32_HALF: u32 = 0x3F00_0000;

/// What IEEE binary32 addition returns on the given operand bits.
pub uninterp spec fn add_bits(a: u32, b: u32) -> u32;

/// What IEEE binary32 subtraction returns on the given operand bits.
pub uninterp spec fn sub_bits(a: u32, b: u32) -> u32;

/// What IEEE binary32 multiplication returns on the given operand bits.
pub uninterp spec fn mul_bits(a: u32, b: u32) -> u32;

/// What IEEE binary32 division returns on the given operand bits.
pub uninterp spec fn div_bits(a: u32, b: u32) -> u32;

/// What the IEEE binary32 square root returns on the given operand bits.
pub uninterp spec fn sqrt_bits(a: u32) -> u32;

/// What the binary32 sine routine returns on the given operand bits.
pub uninterp spec fn sin_bits(a: u32) -> u32;

/// What the binary32 cosine routine returns on the given operand bits.
pub uninterp spec fn cos_bits(a: u32) -> u32;

/// What the binary32 power routine returns on the given operand bits.
pub uninterp spec fn powf_bits(a: u32, b: u32) -> u32;

/// Relies on const_soft_float's `SoftF32::add`, the IEEE binary32 addition
/// ported from compiler-builtins: the sum is a function of the operand bits
/// alone.
#[verifier::external_body]
pub(crate) fn f32_add(a: u32, b: u32) -> (r: u32)
    ensures
        r == add_bits(a, b),
{
    SoftF32::from_bits(a).add(SoftF32::from_bits(b)).to_bits()
}

/// Relies on const_soft_float's `SoftF32::sub` (addition of the negated
/// operand, which is exactly IEEE binary32 subtraction): the difference is a
/// function of the operand bits alone.
#[verifier::external_body]
pub(crate) fn f32_sub(a: u32, b: u32) -> (r: u32)
    ensures
        r == sub_bits(a, b),
{
    SoftF32::from_bits(a).sub(SoftF32::from_bits(b)).to_bits()
}

/// Relies on const_soft_float's `SoftF32::mul`, the IEEE binary32
/// multiplication ported from compiler-builtins: the product is a function of
/// the operand bits alone.
#[verifier::external_body]
pub(crate) fn f32_mul(a: u32, b: u32) -> (r: u32)
    ensures
        r == mul_bits(a, b),
{
    SoftF32::from_bits(a).mul(SoftF32::from_bits(b)).to_bits()
}

/// Relies on const_soft_float's `SoftF32::div`, the IEEE binary32 division
/// ported from compiler-builtins: the quotient is a function of the operand
/// bits alone.
#[verifier::external_body]
pub(crate) fn f32_div(a: u32, b: u32) -> (r: u32)
    ensures
        r == div_bits(a, b),
{
    SoftF32::from_bits(a).div(SoftF32::from_bits(b)).to_bits()
}

/// Relies on const_soft_float's `SoftF32::sqrt`, the correctly rounded IEEE
/// binary32 square root ported from libm: the root is a function of the
/// operand bits alone.
#[verifier::external_body]
pub(crate) fn f32_sqrt(a: u32) -> (r: u32)
    ensures
        r == sqrt_bits(a),
{
    SoftF32::from_bits(a).sqrt().to_bits()
}

/// Relies on const_soft_float's `SoftF32::sin`, the binary32 sine ported from
/// libm: the result is a function of the operand bits alone.
#[verifier::external_body]
pub(crate) fn f32_sin(a: u32) -> (r: u32)
    ensures
        r == sin_bits(a),
{
    SoftF32::from_bits(a).sin().to_bits()
}

/// Relies on const_soft_float's `SoftF32::cos`, the binary32 cosine ported
/// from libm: the result is a function of the operand bits alone.
#[verifier::external_body]
pub(crate) fn f32_cos(a: u32) -> (r: u32)
    ensures
        r == cos_bits(a),
{
    SoftF32::from_bits(a).cos().to_bits()
}

/// Relies on `libm::powf`, the binary32 power routine ported from musl: the
/// result is a function of the operand bits alone. `bytemuck::cast`
/// reinterprets the bit patterns, one for one.
#[verifier::external_body]
pub(crate) fn f32_powf(a: u32, b: u32) -> (r: u32)
    ensures
        r == powf_bits(a, b),
{
    let r: u32 = bytemuck::cast(libm::powf(bytemuck::cast(a), bytemuck::cast(b)));
    r
}

/// The magnitude bits of a binary32 value: the value with its sign cleared.
pub open spec fn spec_abs_bits(a: u32) -> u32 {
    a & 0x7FFF_FFFF
}

/// Negating a binary32 value flips its sign bit and nothing else.
pub open spec fn spec_neg_bits(a: u32) -> u32 {
    a ^ 0x8000_0000
}

/// A binary32 bit pattern encodes NaN exactly when its magnitude bits exceed
/// those of infinity.
pub open spec fn spec_is_nan(a: u32) -> bool {
    a & 0x7FFF_FFFF > 0x7F80_0000
}

/// The IEEE binary32 `<` relation on bit patterns: false on NaN, otherwise a
/// sign-magnitude comparison in which the two zeroes are equal.
pub open spec fn spec_lt_bits(a: u32, b: u32) -> bool {
    if spec_is_nan(a) || spec_is_nan(b) {
        false
    } else {
        let ma = a & 0x7FFF_FFFF;
        let mb = b & 0x7FFF_FFFF;
        if a >= 0x8000_0000 && b < 0x8000_0000 {
            !(ma == 0 && mb == 0)
        } else if a < 0x8000_0000 && b >= 0x8000_0000 {
            false
        } else if a < 0x8000_0000 {
            ma < mb
        } else {
            mb < ma
        }
    }
}

/// The IEEE binary32 `==` relation on bit patterns: false on NaN, true on the
/// two zeroes, and bit equality otherwise.
pub open spec fn spec_eq_bits(a: u32, b: u32) -> bool {
    !spec_is_nan(a) && !spec_is_nan(b) && ((a & 0x7FFF_FFFF == 0 && b & 0x7FFF_FFFF == 0) || a
        == b)
}

/// IEEE binary32 absolute value: clear the sign bit.
pub fn f32_abs(a: u32) -> (r: u32)
    ensures
        r == spec_abs_bits(a),
{
    a & 0x7FFF_FFFF
}

/// IEEE binary32 negation: flip the sign bit.
pub fn f32_neg(a: u32) -> (r: u32)
    ensures
        r == spec_neg_bits(a),
{
    a ^ 0x8000_0000
}

/// IEEE binary32 `<` evaluated on bit patterns.
pub fn f32_lt(a: u32, b: u32) -> (r: bool)
    ensures
        r == spec_lt_bits(a, b),
{
    let ma: u32 = a & 0x7FFF_FFFF;
    let mb: u32 = b & 0x7FFF_FFFF;
    if ma > 0x7F80_0000 || mb > 0x7F80_0000 {
        false
    } else if a >= 0x8000_0000 && b < 0x8000_0000 {
        !(ma == 0 && mb == 0)
    } else if a < 0x8000_0000 && b >= 0x8000_0000 {
        false
    } else if a < 0x8000_0000 {
        ma < mb
    } else {
        mb < ma
    }
}

/// IEEE binary32 `==` evaluated on bit patterns.
pub fn f32_eq(a: u32, b: u32) -> (r: bool)
    ensures
        r == spec_eq_bits(a, b),
{
    let ma: u32 = a & 0x7FFF_FFFF;
    let mb: u32 = b & 0x7FFF_FFFF;
    if ma > 0x7F80_0000 || mb > 0x7F80_0000 {
        false
    } else {
        (ma == 0 && mb == 0) || a == b
    }
}

} // verus!
