//! The bit-level layout of the two floating-point formats.
use vstd::prelude::*;

verus! {

use vstd::arithmetic::power2::lemma2_to64;
use vstd::arithmetic::power2::lemma2_to64_rest;
use vstd::arithmetic::power2::pow2;
use crate::fp32::Fp32;
use crate::fp32::f32_exp;
use crate::fp32::f32_frac;
use crate::fp64::Fp64;
use crate::fp64::f64_exp;
use crate::fp64::f64_frac;

/// The structural constants of a binary floating-point format: its total
/// width, the widths of the exponent and significand fields, the exponent
/// bias, and the masks that extract the two fields from the bit pattern.
pub trait IEEE754 {
    const BITS: i16;
    const EXP_BITS: i16;
    const SIG_BITS: i16;
    type Unsigned;
    const EXP_MASK: Self::Unsigned;
    const SIG_MASK: Self::Unsigned;
    const EXP_BIAS: Self::Unsigned;
}

impl IEEE754 for Fp32 {
    const BITS: i16 = 32;
    const EXP_BITS: i16 = 8;
    const SIG_BITS: i16 = 23;
    type Unsigned = u32;
    const EXP_MASK: u32 = 0x7F800000;
    const SIG_MASK: u32 = 0x007FFFFF;
    const EXP_BIAS: u32 = 127;
}

impl IEEE754 for Fp64 {
    const BITS: i16 = 64;
    const EXP_BITS: i16 = 11;
    const SIG_BITS: i16 = 52;
    type Unsigned = u64;
    const EXP_MASK: u64 = 0x7FF0000000000000;
    const SIG_MASK: u64 = 0x000FFFFFFFFFFFFF;
    const EXP_BIAS: u64 = 1023;
}

/// The structural invariant of the 32-bit layout: the total width counts
/// the sign bit and the two fields, the masks are the field widths worth
/// of ones shifted into place, and the bias is half the exponent range
/// less one.
pub proof fn lemma_fp32_layout()
    ensures
        Fp32::BITS == 1 + Fp32::EXP_BITS + Fp32::SIG_BITS,
        Fp32::EXP_MASK == (pow2(Fp32::EXP_BITS as nat) - 1) * pow2(Fp32::SIG_BITS as nat),
        Fp32::SIG_MASK == pow2(Fp32::SIG_BITS as nat) - 1,
        Fp32::EXP_BIAS == pow2((Fp32::EXP_BITS - 1) as nat) - 1,
{
    lemma2_to64();
    assert((pow2(8) - 1) * pow2(23) == 0xFF * 0x800000nat) by (nonlinear_arith)
        requires
            pow2(8) == 0x100 && pow2(23) == 0x800000,
    ;
}

/// The structural invariant of the 64-bit layout, as for the 32-bit one.
pub proof fn lemma_fp64_layout()
    ensures
        Fp64::BITS == 1 + Fp64::EXP_BITS + Fp64::SIG_BITS,
        Fp64::EXP_MASK == (pow2(Fp64::EXP_BITS as nat) - 1) * pow2(Fp64::SIG_BITS as nat),
        Fp64::SIG_MASK == pow2(Fp64::SIG_BITS as nat) - 1,
        Fp64::EXP_BIAS == pow2((Fp64::EXP_BITS - 1) as nat) - 1,
{
    lemma2_to64();
    lemma2_to64_rest();
    assert((pow2(11) - 1) * pow2(52) == 0x7FF * 0x10000000000000nat) by (nonlinear_arith)
        requires
            pow2(11) == 0x800 && pow2(52) == 0x10000000000000,
    ;
}

/// The masks extract exactly the fields the conversion engine reads:
/// the exponent mask covers bits 23 to 30 of a 32-bit pattern, the
/// significand mask bits 0 to 22.
pub proof fn lemma_fp32_masks(b: u32)
    ensures
        f32_exp(b) == (b & Fp32::EXP_MASK) >> 23u32,
        f32_frac(b) == b & Fp32::SIG_MASK,
{
    assert((b >> 23u32) & 0xFFu32 == (b & 0x7F800000u32) >> 23u32) by (bit_vector);
}

/// The masks extract exactly the fields the conversion engine reads:
/// the exponent mask covers bits 52 to 62 of a 64-bit pattern, the
/// significand mask bits 0 to 51.
pub proof fn lemma_fp64_masks(b: u64)
    ensures
        f64_exp(b) == (b & Fp64::EXP_MASK) >> 52u64,
        f64_frac(b) == b & Fp64::SIG_MASK,
{
    assert((b >> 52u64) & 0x7FFu64 == (b & 0x7FF0000000000000u64) >> 52u64) by (bit_vector);
}

} // verus!
