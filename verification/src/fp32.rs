//! The 32-bit binary floating-point format, as a bit pattern.
//!
//! A value of the format is one sign bit, an 8-bit exponent field and a
//! 23-bit significand field.  A finite value with exponent field `e` and
//! significand field `f` denotes `(-1)^sign * m * 2^(e' - 150)` with
//! `m = f + 2^23` and `e' = e` for normal values (`e > 0`), and
//! `m = f`, `e' = 1` for subnormals (`e == 0`); an all-ones exponent
//! field is an infinity (`f == 0`) or NaN (`f != 0`).  Scaling by
//! `2^149` makes every finite value the integer `f32_scaled` over
//! `2^149`.
use vstd::prelude::*;

verus! {

use vstd::arithmetic::power2::lemma2_to64;
use vstd::arithmetic::power2::pow2;
use crate::engine::convert_parts;
use crate::engine::scaled_of_parts;
use crate::model::ExactError;
use crate::model::exact_convert;
use crate::model::lemma_exact_convert_integer;
use crate::model::lemma_exact_convert_ok_bounds;

/// A 32-bit floating-point value, held as its raw bit pattern.
#[derive(Clone, Copy, Debug, PartialEq, Eq, Structural)]
pub struct Fp32 {
    pub bits: u32,
}

impl Fp32 {
    /// The value whose bit pattern is `bits`.
    pub fn from_bits(bits: u32) -> (r: Fp32)
        ensures
            r.bits == bits,
    {
        Fp32 { bits }
    }

    /// The raw bit pattern.
    pub fn to_bits(self) -> (r: u32)
        ensures
            r == self.bits,
    {
        self.bits
    }
}

/// The sign bit.
pub open spec fn f32_sign(b: u32) -> u32 {
    b >> 31u32
}

/// The exponent field.
pub open spec fn f32_exp(b: u32) -> u32 {
    (b >> 23u32) & 0xFFu32
}

/// The significand field.
pub open spec fn f32_frac(b: u32) -> u32 {
    b & 0x7FFFFFu32
}

/// Whether the bits denote a finite value (NaN and the infinities carry
/// an all-ones exponent field).
pub open spec fn f32_is_finite(b: u32) -> bool {
    f32_exp(b) != 0xFF
}

/// The mantissa: the significand field, with the implicit leading bit
/// restored for normal values.
pub open spec fn f32_mantissa(b: u32) -> nat {
    if f32_exp(b) == 0 {
        f32_frac(b) as nat
    } else {
        (f32_frac(b) + 0x800000) as nat
    }
}

/// The exponent of the mantissa relative to the smallest (subnormal)
/// weight `2^-149`.
pub open spec fn f32_exp_index(b: u32) -> nat {
    if f32_exp(b) == 0 {
        0
    } else {
        (f32_exp(b) - 1) as nat
    }
}

/// The exact value of a finite pattern, scaled by `2^149` so that it is
/// an integer.
pub open spec fn f32_scaled(b: u32) -> int {
    if f32_sign(b) == 1 {
        -((f32_mantissa(b) * pow2(f32_exp_index(b))) as int)
    } else {
        (f32_mantissa(b) * pow2(f32_exp_index(b))) as int
    }
}

/// The result owed when the value of `b` is converted to an integer of
/// the half-open range `[lo, hi)`.
pub open spec fn fp32_convert_spec(b: u32, lo: int, hi: int) -> Result<int, ExactError> {
    exact_convert(f32_is_finite(b), f32_scaled(b), 149, lo, hi)
}

/// Round-trip exactness: a finite 32-bit value that is exactly the
/// integer `i`, with `i` inside the target range, converts to `Ok(i)`.
pub proof fn lemma_fp32_round_trip(b: u32, i: int, lo: int, hi: int)
    requires
        f32_is_finite(b),
        f32_scaled(b) == i * pow2(149),
        lo <= i < hi,
    ensures
        fp32_convert_spec(b, lo, hi) == Ok::<int, ExactError>(i),
{
    lemma_exact_convert_integer(i, 149, lo, hi);
}

/// Every NaN and both infinities convert to `Err(Overflow)`, whatever
/// the target range: the two infinities are treated symmetrically.
pub proof fn lemma_fp32_nonfinite_overflow(b: u32, lo: int, hi: int)
    requires
        !f32_is_finite(b),
    ensures
        fp32_convert_spec(b, lo, hi) == Err::<int, ExactError>(ExactError::Overflow),
{
}

/// Conversion of a 32-bit value to an unsigned target whose largest
/// value is `umax`.
pub fn fp32_to_unsigned(v: Fp32, umax: u128) -> (r: Result<u128, ExactError>)
    ensures
        (match fp32_convert_spec(v.bits, 0, (umax as int) + 1) {
            Ok(i) => r is Ok && r->Ok_0 == i,
            Err(e) => r is Err && r->Err_0 == e,
        }),
        r is Ok ==> r->Ok_0 <= umax,
{
    let b = v.bits;
    let exp: u32 = (b >> 23) & 0xFF;
    let frac: u32 = b & 0x7FFFFF;
    if exp == 0xFF {
        return Err(ExactError::Overflow);
    }
    proof {
        assert(b & 0x7FFFFF <= 0x7FFFFF) by (bit_vector);
    }
    let m: u32 = if exp == 0 {
        frac
    } else {
        frac + 0x800000
    };
    let neg: bool = (b >> 31) == 1;
    let e1: u32 = if exp == 0 {
        0
    } else {
        exp - 1
    };
    proof {
        lemma2_to64();
        assert(m < pow2(24));
        assert(e1 >= 1 ==> m >= pow2(23));
        assert(scaled_of_parts(neg, m as u64, e1) == f32_scaled(b));
    }
    let r = convert_parts(neg, m as u64, e1, 149, 24, 0, umax);
    proof {
        if fp32_convert_spec(b, 0, (umax as int) + 1) is Ok {
            lemma_exact_convert_ok_bounds(true, f32_scaled(b), 149, 0, (umax as int) + 1);
        }
    }
    r
}

/// Conversion of a 32-bit value to a signed target whose range is
/// `[-smin_mag, smax]`.
pub fn fp32_to_signed(v: Fp32, smin_mag: u128, smax: u128) -> (r: Result<i128, ExactError>)
    requires
        smin_mag <= 0x80000000000000000000000000000000u128,
        smax <= 0x7FFFFFFFFFFFFFFFFFFFFFFFFFFFFFFFu128,
    ensures
        (match fp32_convert_spec(v.bits, -(smin_mag as int), (smax as int) + 1) {
            Ok(i) => r is Ok && r->Ok_0 == i,
            Err(e) => r is Err && r->Err_0 == e,
        }),
{
    let b = v.bits;
    let exp: u32 = (b >> 23) & 0xFF;
    let frac: u32 = b & 0x7FFFFF;
    if exp == 0xFF {
        return Err(ExactError::Overflow);
    }
    proof {
        assert(b & 0x7FFFFF <= 0x7FFFFF) by (bit_vector);
    }
    let m: u32 = if exp == 0 {
        frac
    } else {
        frac + 0x800000
    };
    let neg: bool = (b >> 31) == 1;
    let e1: u32 = if exp == 0 {
        0
    } else {
        exp - 1
    };
    proof {
        lemma2_to64();
        assert(m < pow2(24));
        assert(e1 >= 1 ==> m >= pow2(23));
        assert(scaled_of_parts(neg, m as u64, e1) == f32_scaled(b));
    }
    let ghost lo: int = -(smin_mag as int);
    let ghost hi: int = (smax as int) + 1;
    proof {
        if fp32_convert_spec(b, lo, hi) is Ok {
            lemma_exact_convert_ok_bounds(true, f32_scaled(b), 149, lo, hi);
        }
    }
    match convert_parts(neg, m as u64, e1, 149, 24, smin_mag, smax) {
        Err(e) => Err(e),
        Ok(x) => {
            if neg {
                if x == 0x80000000000000000000000000000000u128 {
                    Ok(i128::MIN)
                } else {
                    Ok(-(x as i128))
                }
            } else {
                Ok(x as i128)
            }
        },
    }
}

} // verus!
