//! The 64-bit binary floating-point format, as a bit pattern.
//!
//! A value of the format is one sign bit, an 11-bit exponent field and a
//! 52-bit significand field.  A finite value with exponent field `e` and
//! significand field `f` denotes `(-1)^sign * m * 2^(e' - 1075)` with
//! `m = f + 2^52` and `e' = e` for normal values (`e > 0`), and
//! `m = f`, `e' = 1` for subnormals (`e == 0`); an all-ones exponent
//! field is an infinity (`f == 0`) or NaN (`f != 0`).  Scaling by
//! `2^1074` makes every finite value the integer `f64_scaled` over
//! `2^1074`.
use vstd::prelude::*;

verus! {

use vstd::arithmetic::power2::lemma2_to64;
use vstd::arithmetic::power2::lemma2_to64_rest;
use vstd::arithmetic::power2::pow2;
use crate::engine::convert_parts;
use crate::engine::scaled_of_parts;
use crate::model::ExactError;
use crate::model::exact_convert;
use crate::model::lemma_exact_convert_integer;
use crate::model::lemma_exact_convert_ok_bounds;

/// A 64-bit floating-point value, held as its raw bit pattern.
#[derive(Clone, Copy, Debug, PartialEq, Eq, Structural)]
pub struct Fp64 {
    pub bits: u64,
}

impl Fp64 {
    /// The value whose bit pattern is `bits`.
    pub fn from_bits(bits: u64) -> (r: Fp64)
        ensures
            r.bits == bits,
    {
        Fp64 { bits }
    }

    /// The raw bit pattern.
    pub fn to_bits(self) -> (r: u64)
        ensures
            r == self.bits,
    {
        self.bits
    }
}

/// The sign bit.
pub open spec fn f64_sign(b: u64) -> u64 {
    b >> 63u64
}

/// The exponent field.
pub open spec fn f64_exp(b: u64) -> u64 {
    (b >> 52u64) & 0x7FFu64
}

/// The significand field.
pub open spec fn f64_frac(b: u64) -> u64 {
    b & 0xFFFFFFFFFFFFFu64
}

/// Whether the bits denote a finite value (NaN and the infinities carry
/// an all-ones exponent field).
pub open spec fn f64_is_finite(b: u64) -> bool {
    f64_exp(b) != 0x7FF
}

/// The mantissa: the significand field, with the implicit leading bit
/// restored for normal values.
pub open spec fn f64_mantissa(b: u64) -> nat {
    if f64_exp(b) == 0 {
        f64_frac(b) as nat
    } else {
        (f64_frac(b) + 0x10000000000000) as nat
    }
}

/// The exponent of the mantissa relative to the smallest (subnormal)
/// weight `2^-1074`.
pub open spec fn f64_exp_index(b: u64) -> nat {
    if f64_exp(b) == 0 {
        0
    } else {
        (f64_exp(b) - 1) as nat
    }
}

/// The exact value of a finite pattern, scaled by `2^1074` so that it
/// is an integer.
pub open spec fn f64_scaled(b: u64) -> int {
    if f64_sign(b) == 1 {
        -((f64_mantissa(b) * pow2(f64_exp_index(b))) as int)
    } else {
        (f64_mantissa(b) * pow2(f64_exp_index(b))) as int
    }
}

/// The result owed when the value of `b` is converted to an integer of
/// the half-open range `[lo, hi)`.
pub open spec fn fp64_convert_spec(b: u64, lo: int, hi: int) -> Result<int, ExactError> {
    exact_convert(f64_is_finite(b), f64_scaled(b), 1074, lo, hi)
}

/// Round-trip exactness: a finite 64-bit value that is exactly the
/// integer `i`, with `i` inside the target range, converts to `Ok(i)`.
pub proof fn lemma_fp64_round_trip(b: u64, i: int, lo: int, hi: int)
    requires
        f64_is_finite(b),
        f64_scaled(b) == i * pow2(1074),
        lo <= i < hi,
    ensures
        fp64_convert_spec(b, lo, hi) == Ok::<int, ExactError>(i),
{
    lemma_exact_convert_integer(i, 1074, lo, hi);
}

/// Every NaN and both infinities convert to `Err(Overflow)`, whatever
/// the target range: the two infinities are treated symmetrically.
pub proof fn lemma_fp64_nonfinite_overflow(b: u64, lo: int, hi: int)
    requires
        !f64_is_finite(b),
    ensures
        fp64_convert_spec(b, lo, hi) == Err::<int, ExactError>(ExactError::Overflow),
{
}

/// Conversion of a 64-bit value to an unsigned target whose largest
/// value is `umax`.
pub fn fp64_to_unsigned(v: Fp64, umax: u128) -> (r: Result<u128, ExactError>)
    ensures
        (match fp64_convert_spec(v.bits, 0, (umax as int) + 1) {
            Ok(i) => r is Ok && r->Ok_0 == i,
            Err(e) => r is Err && r->Err_0 == e,
        }),
        r is Ok ==> r->Ok_0 <= umax,
{
    let b = v.bits;
    let exp: u64 = (b >> 52) & 0x7FF;
    let frac: u64 = b & 0xFFFFFFFFFFFFF;
    if exp == 0x7FF {
        return Err(ExactError::Overflow);
    }
    proof {
        assert(b & 0xFFFFFFFFFFFFF <= 0xFFFFFFFFFFFFF) by (bit_vector);
    }
    let m: u64 = if exp == 0 {
        frac
    } else {
        frac + 0x10000000000000
    };
    let neg: bool = (b >> 63) == 1;
    let e1: u32 = if exp == 0 {
        0
    } else {
        (exp - 1) as u32
    };
    proof {
        assert((b >> 52) & 0x7FF <= 0x7FF) by (bit_vector);
        lemma2_to64();
        lemma2_to64_rest();
        assert(m < pow2(53));
        assert(e1 >= 1 ==> m >= pow2(52));
        assert(scaled_of_parts(neg, m, e1) == f64_scaled(b));
    }
    let r = convert_parts(neg, m, e1, 1074, 53, 0, umax);
    proof {
        if fp64_convert_spec(b, 0, (umax as int) + 1) is Ok {
            lemma_exact_convert_ok_bounds(true, f64_scaled(b), 1074, 0, (umax as int) + 1);
        }
    }
    r
}

/// Conversion of a 64-bit value to a signed target whose range is
/// `[-smin_mag, smax]`.
pub fn fp64_to_signed(v: Fp64, smin_mag: u128, smax: u128) -> (r: Result<i128, ExactError>)
    requires
        smin_mag <= 0x80000000000000000000000000000000u128,
        smax <= 0x7FFFFFFFFFFFFFFFFFFFFFFFFFFFFFFFu128,
    ensures
        (match fp64_convert_spec(v.bits, -(smin_mag as int), (smax as int) + 1) {
            Ok(i) => r is Ok && r->Ok_0 == i,
            Err(e) => r is Err && r->Err_0 == e,
        }),
{
    let b = v.bits;
    let exp: u64 = (b >> 52) & 0x7FF;
    let frac: u64 = b & 0xFFFFFFFFFFFFF;
    if exp == 0x7FF {
        return Err(ExactError::Overflow);
    }
    proof {
        assert(b & 0xFFFFFFFFFFFFF <= 0xFFFFFFFFFFFFF) by (bit_vector);
    }
    let m: u64 = if exp == 0 {
        frac
    } else {
        frac + 0x10000000000000
    };
    let neg: bool = (b >> 63) == 1;
    let e1: u32 = if exp == 0 {
        0
    } else {
        (exp - 1) as u32
    };
    proof {
        assert((b >> 52) & 0x7FF <= 0x7FF) by (bit_vector);
        lemma2_to64();
        lemma2_to64_rest();
        assert(m < pow2(53));
        assert(e1 >= 1 ==> m >= pow2(52));
        assert(scaled_of_parts(neg, m, e1) == f64_scaled(b));
    }
    let ghost lo: int = -(smin_mag as int);
    let ghost hi: int = (smax as int) + 1;
    proof {
        if fp64_convert_spec(b, lo, hi) is Ok {
            lemma_exact_convert_ok_bounds(true, f64_scaled(b), 1074, lo, hi);
        }
    }
    match convert_parts(neg, m, e1, 1074, 53, smin_mag, smax) {
        Err(e) => Err(e),
        Ok(x) => {
            if neg {
                if x == 0x80000000000000000000000000000000u128 {
                    Ok(i128::MIN)
                } else {
                    Ok(-(x as i128))
                }
            } else {
                Ok(x as i128)
            }
        },
    }
}

} // verus!
