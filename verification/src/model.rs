//! The mathematical model of an exact conversion.
//!
//! A finite binary floating-point value is a rational of the form
//! `scaled / 2^s`, where `scaled` is an integer read off the bit pattern
//! and `s` is a fixed scale of the format (large enough that every finite
//! value of the format, including the subnormals, is such a multiple).
//! [`exact_convert`] states, over that representation, which result the
//! conversion engine owes for a target range `[lo, hi)`.
use vstd::prelude::*;

verus! {

use vstd::arithmetic::div_mod::lemma_fundamental_div_mod;
use vstd::arithmetic::div_mod::lemma_fundamental_div_mod_converse;
use vstd::arithmetic::mul::lemma_mul_is_commutative;
use vstd::arithmetic::mul::lemma_mul_inequality;
use vstd::arithmetic::mul::lemma_mul_strict_inequality;
use vstd::arithmetic::mul::lemma_mul_inequality_converse;
use vstd::arithmetic::mul::lemma_mul_strict_inequality_converse;
use vstd::arithmetic::power2::lemma_pow2_pos;
use vstd::arithmetic::power2::pow2;

/// Why a conversion was refused.
#[derive(Clone, Copy, Debug, Eq, PartialEq, Structural)]
pub enum ExactError {
    /// The value lies inside the target range but has a fractional part,
    /// so no integer equals it exactly.
    Inexact,
    /// The value lies outside the representable range of the target type
    /// (NaN and the infinities fall here as well).
    Overflow,
}

/// The result owed for a value `scaled / 2^s` converted to an integer in
/// the half-open range `[lo, hi)`, following the decision order of the
/// engine: a value out of range (or not finite at all) is `Overflow`; an
/// in-range value with a fractional part is `Inexact`; otherwise the
/// conversion returns the integer itself.
pub open spec fn exact_convert(finite: bool, scaled: int, s: nat, lo: int, hi: int) -> Result<
    int,
    ExactError,
> {
    if finite && lo * pow2(s) <= scaled && scaled < hi * pow2(s) {
        if scaled % (pow2(s) as int) == 0 {
            Ok(scaled / (pow2(s) as int))
        } else {
            Err(ExactError::Inexact)
        }
    } else {
        Err(ExactError::Overflow)
    }
}

/// Round-trip exactness: a finite floating-point value that is exactly the
/// integer `i`, with `i` inside the target range, converts to `Ok(i)`.
pub proof fn lemma_exact_convert_integer(i: int, s: nat, lo: int, hi: int)
    requires
        lo <= i < hi,
    ensures
        exact_convert(true, i * pow2(s), s, lo, hi) == Ok::<int, ExactError>(i),
{
    let p = pow2(s) as int;
    lemma_pow2_pos(s);
    lemma_mul_inequality(lo, i, p);
    lemma_mul_strict_inequality(i, hi, p);
    lemma_fundamental_div_mod_converse(i * p, p, i, 0);
}

/// Boundary exclusion: a value that is exactly an integer outside the
/// target range — the bound `hi` itself, or anything below `lo`, such as
/// `-1` for an unsigned target — is refused as `Overflow`.  Together with
/// [`lemma_exact_convert_integer`] this pins the half-open range
/// `[lo, hi)`: both ends of the signed range behave symmetrically, the
/// minimum included and the magnitude-equal bound above the maximum
/// excluded.
pub proof fn lemma_exact_convert_out_of_range(i: int, s: nat, lo: int, hi: int)
    requires
        i < lo || i >= hi,
    ensures
        exact_convert(true, i * pow2(s), s, lo, hi) == Err::<int, ExactError>(
            ExactError::Overflow,
        ),
{
    let p = pow2(s) as int;
    lemma_pow2_pos(s);
    if i < lo {
        lemma_mul_strict_inequality(i, lo, p);
    } else {
        lemma_mul_inequality(hi, i, p);
    }
}

/// A value that is not finite (NaN or an infinity) is refused as
/// `Overflow`, whatever the target range.
pub proof fn lemma_exact_convert_nonfinite(scaled: int, s: nat, lo: int, hi: int)
    ensures
        exact_convert(false, scaled, s, lo, hi) == Err::<int, ExactError>(ExactError::Overflow),
{
}

/// A successful conversion yields an integer inside the target range, and
/// that integer, scaled back up, is exactly the input value: the converse
/// direction of round-trip exactness.
pub proof fn lemma_exact_convert_ok_bounds(finite: bool, scaled: int, s: nat, lo: int, hi: int)
    requires
        exact_convert(finite, scaled, s, lo, hi) is Ok,
    ensures
        lo <= exact_convert(finite, scaled, s, lo, hi)->Ok_0 < hi,
        scaled == exact_convert(finite, scaled, s, lo, hi)->Ok_0 * pow2(s),
{
    let p = pow2(s) as int;
    lemma_pow2_pos(s);
    let q = scaled / p;
    lemma_fundamental_div_mod(scaled, p);
    lemma_mul_is_commutative(p, q);
    assert(scaled == q * p);
    lemma_mul_inequality_converse(lo, q, p);
    lemma_mul_strict_inequality_converse(q, hi, p);
}

} // verus!
