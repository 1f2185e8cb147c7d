//! The conversion engine's decision core.
//!
//! A finite floating-point value, taken apart by its format, is a sign, a
//! mantissa `m` (the significand field with the implicit bit restored for
//! normal values) and a scaled exponent `e1`, so that its exact value is
//! `(-1)^sign * m * 2^e1 / 2^s` for the fixed scale `s` of the format.
//! [`convert_parts`] decides, over those integers alone, whether that value
//! is exactly an integer of the half-open target range
//! `[-lo_mag, hi_mag + 1)`, and returns its magnitude when it is.
use vstd::prelude::*;

verus! {

use vstd::arithmetic::div_mod::lemma_fundamental_div_mod;
use vstd::arithmetic::div_mod::lemma_fundamental_div_mod_converse;
use vstd::arithmetic::div_mod::lemma_mod_pos_bound;
use vstd::arithmetic::mul::group_mul_basics;
use vstd::arithmetic::mul::group_mul_is_commutative_and_distributive;
use vstd::arithmetic::mul::lemma_mul_is_associative;
use vstd::arithmetic::mul::lemma_mul_inequality;
use vstd::arithmetic::mul::lemma_mul_strict_inequality;
use vstd::arithmetic::mul::lemma_mul_unary_negation;
use vstd::arithmetic::mul::lemma_mul_left_inequality;
use vstd::arithmetic::power2::lemma_pow2_adds;
use vstd::arithmetic::power2::lemma_pow2_pos;
use vstd::arithmetic::power2::lemma_pow2_strictly_increases;
use vstd::arithmetic::power2::lemma2_to64;
use vstd::arithmetic::power2::lemma2_to64_rest;
use vstd::arithmetic::power2::pow2;
use crate::model::ExactError;
use crate::model::exact_convert;
use crate::power::pow2_u128;
use crate::power::pow2_u64;

/// The scaled value `(-1)^sign * m * 2^e1` read off a finite
/// floating-point bit pattern; the value itself is this over `2^s`.
pub open spec fn scaled_of_parts(neg: bool, m: u64, e1: u32) -> int {
    if neg {
        -(((m as nat) * pow2(e1 as nat)) as int)
    } else {
        ((m as nat) * pow2(e1 as nat)) as int
    }
}

proof fn lemma_pow2_le(a: nat, b: nat)
    requires
        a <= b,
    ensures
        pow2(a) <= pow2(b),
{
    if a < b {
        lemma_pow2_strictly_increases(a, b);
    }
}

/// The decision procedure of the conversion engine, on the parts of a
/// finite floating-point value: `Overflow` when the value lies outside
/// `[-lo_mag, hi_mag + 1)`, `Inexact` when it is in range but not an
/// integer, and otherwise the magnitude of the integer it equals.
///
/// `mbits` bounds the mantissa (`m < 2^mbits`), and a value with
/// `e1 >= 1` is normal, so its mantissa carries the implicit bit.
pub fn convert_parts(neg: bool, m: u64, e1: u32, s: u32, mbits: u32, lo_mag: u128, hi_mag: u128) -> (r:
    Result<u128, ExactError>)
    requires
        1 <= mbits <= 53,
        mbits <= s,
        m < pow2(mbits as nat),
        e1 >= 1 ==> m >= pow2((mbits - 1) as nat),
    ensures
        (match exact_convert(
            true,
            scaled_of_parts(neg, m, e1),
            s as nat,
            -(lo_mag as int),
            (hi_mag as int) + 1,
        ) {
            Ok(i) => r is Ok && i == (if neg {
                -(r->Ok_0 as int)
            } else {
                r->Ok_0 as int
            }),
            Err(e) => r is Err && r->Err_0 == e,
        }),
        r is Ok ==> r->Ok_0 <= (if neg {
            lo_mag
        } else {
            hi_mag
        }),
{
    proof {
        broadcast use group_mul_basics;
        broadcast use group_mul_is_commutative_and_distributive;

        lemma_pow2_pos(s as nat);
        lemma_pow2_pos(e1 as nat);
    }
    let ghost p: int = pow2(s as nat) as int;
    let ghost sc: int = scaled_of_parts(neg, m, e1);
    let ghost lo: int = -(lo_mag as int);
    let ghost hi: int = (hi_mag as int) + 1;
    let ghost mag: int = ((m as nat) * pow2(e1 as nat)) as int;

    if m == 0 {
        proof {
            assert(mag == 0);
            assert(sc == 0);
            lemma_mul_inequality(lo, 0, p);
            lemma_mul_strict_inequality(0, hi, p);
            lemma_fundamental_div_mod_converse(0, p, 0, 0);
        }
        return Ok(0);
    }
    proof {
        lemma_mul_inequality(1, m as int, pow2(e1 as nat) as int);
        assert(mag > 0);
    }
    if e1 >= s {
        let shift: u32 = e1 - s;
        let ghost w: int = ((m as nat) * pow2(shift as nat)) as int;
        proof {
            lemma_pow2_adds(shift as nat, s as nat);
            lemma_mul_is_associative(m as int, pow2(shift as nat) as int, p);
            assert(mag == w * p);
        }
        if shift > 128 - mbits {
            // The magnitude is at least 2^128 times the scale: out of
            // range of every target this engine serves.
            proof {
                lemma_mul_inequality(
                    pow2((mbits - 1) as nat) as int,
                    m as int,
                    pow2(shift as nat) as int,
                );
                lemma_pow2_adds((mbits - 1) as nat, shift as nat);
                lemma_pow2_le(128, (mbits - 1 + shift) as nat);
                lemma_pow2_adds(64, 64);
                lemma2_to64();
                assert(pow2(128) == 0x100000000000000000000000000000000);
                assert(w >= 0x100000000000000000000000000000000);
                if neg {
                    assert(sc == -(w * p));
                    lemma_mul_unary_negation(w, p);
                    assert(sc == (-w) * p);
                    assert(-w <= lo - 1);
                    lemma_mul_inequality(-w, lo - 1, p);
                    lemma_mul_strict_inequality(lo - 1, lo, p);
                    assert(!(lo * p <= sc));
                } else {
                    assert(sc == w * p);
                    assert(hi <= w);
                    lemma_mul_inequality(hi, w, p);
                    assert(!(sc < hi * p));
                }
            }
            return Err(ExactError::Overflow);
        }
        let pshift: u128 = {
            proof {
                lemma_pow2_le(shift as nat, 127);
                lemma_pow2_adds(64, 63);
                lemma2_to64();
                lemma2_to64_rest();
                assert(pow2(127) == 0x80000000000000000000000000000000);
            }
            pow2_u128(shift)
        };
        proof {
            lemma_mul_strict_inequality(m as int, pow2(mbits as nat) as int, pshift as int);
            lemma_pow2_le(shift as nat, (128 - mbits) as nat);
            lemma_mul_left_inequality(
                pow2(mbits as nat) as int,
                pow2(shift as nat) as int,
                pow2((128 - mbits) as nat) as int,
            );
            lemma_pow2_adds(mbits as nat, (128 - mbits) as nat);
            lemma_pow2_adds(64, 64);
            lemma2_to64();
            assert(pow2(128) == 0x100000000000000000000000000000000);
            assert(w < 0x100000000000000000000000000000000);
        }
        let v: u128 = (m as u128) * pshift;
        proof {
            assert(v == w);
            assert(mag == (v as int) * p);
        }
        if neg {
            if v <= lo_mag {
                proof {
                    lemma_mul_unary_negation(v as int, p);
                    assert(sc == (-(v as int)) * p);
                    lemma_fundamental_div_mod_converse(sc, p, -(v as int), 0);
                    lemma_mul_inequality(lo, -(v as int), p);
                    lemma_mul_inequality(-(v as int), 0, p);
                    lemma_mul_strict_inequality(0, hi, p);
                }
                Ok(v)
            } else {
                proof {
                    lemma_mul_unary_negation(v as int, p);
                    assert(sc == (-(v as int)) * p);
                    lemma_mul_inequality(-(v as int), lo - 1, p);
                    lemma_mul_strict_inequality(lo - 1, lo, p);
                    assert(!(lo * p <= sc));
                }
                Err(ExactError::Overflow)
            }
        } else {
            if v <= hi_mag {
                proof {
                    assert(sc == (v as int) * p);
                    lemma_fundamental_div_mod_converse(sc, p, v as int, 0);
                    lemma_mul_inequality(lo, 0, p);
                    lemma_mul_inequality(0, v as int, p);
                    lemma_mul_strict_inequality(v as int, hi, p);
                }
                Ok(v)
            } else {
                proof {
                    assert(sc == (v as int) * p);
                    lemma_mul_inequality(hi, v as int, p);
                    assert(!(sc < hi * p));
                }
                Err(ExactError::Overflow)
            }
        }
    } else {
        let k: u32 = s - e1;
        proof {
            lemma_pow2_adds(k as nat, e1 as nat);
            assert(p == pow2(k as nat) * pow2(e1 as nat));
        }
        if k >= mbits {
            // The whole mantissa sits below the point: the value lies
            // strictly between 0 and 1 in magnitude.
            proof {
                lemma_pow2_le(mbits as nat, k as nat);
                lemma_mul_strict_inequality(m as int, pow2(k as nat) as int, pow2(e1 as nat) as int);
                assert(0 < mag < p);
            }
            if neg {
                if lo_mag == 0 {
                    proof {
                        assert(sc == -mag);
                        assert(lo * p == 0);
                        assert(!(lo * p <= sc));
                    }
                    Err(ExactError::Overflow)
                } else {
                    proof {
                        assert(sc == -mag);
                        lemma_mul_inequality(lo, -1, p);
                        lemma_mul_unary_negation(1, p);
                        assert(lo * p <= -p);
                        lemma_mul_strict_inequality(0, hi, p);
                        lemma_fundamental_div_mod_converse(sc, p, -1, p - mag);
                        assert(sc % p != 0);
                    }
                    Err(ExactError::Inexact)
                }
            } else {
                proof {
                    assert(sc == mag);
                    lemma_mul_inequality(lo, 0, p);
                    lemma_mul_inequality(1, hi, p);
                    lemma_fundamental_div_mod_converse(sc, p, 0, mag);
                    assert(sc % p != 0);
                }
                Err(ExactError::Inexact)
            }
        } else {
            let d: u64 = {
                proof {
                    lemma_pow2_le(k as nat, 52);
                    lemma2_to64();
                }
                pow2_u64(k)
            };
            proof {
                lemma_pow2_pos(k as nat);
            }
            let whole: u64 = m / d;
            let rem: u64 = m % d;
            let ghost rr: int = ((rem as nat) * pow2(e1 as nat)) as int;
            proof {
                lemma_fundamental_div_mod(m as int, d as int);
                lemma_mod_pos_bound(m as int, d as int);
                assert(m == d * whole + rem);
                lemma_mul_is_associative(whole as int, d as int, pow2(e1 as nat) as int);
                assert(mag == (whole as int) * p + rr) by {
                    assert(mag == (d * whole + rem) * pow2(e1 as nat));
                }
                lemma_mul_strict_inequality(rem as int, d as int, pow2(e1 as nat) as int);
                assert(0 <= rr < p);
            }
            if neg {
                if (whole as u128) > lo_mag {
                    proof {
                        assert(sc == -((whole as int) * p + rr));
                        lemma_mul_inequality(lo_mag as int + 1, whole as int, p);
                        lemma_mul_strict_inequality(lo_mag as int, lo_mag as int + 1, p);
                        lemma_mul_unary_negation(lo_mag as int, p);
                        assert(!(lo * p <= sc));
                    }
                    Err(ExactError::Overflow)
                } else if (whole as u128) == lo_mag && rem != 0 {
                    proof {
                        lemma_mul_inequality(1, rem as int, pow2(e1 as nat) as int);
                        assert(rr > 0);
                        assert(sc == -((whole as int) * p + rr));
                        lemma_mul_unary_negation(lo_mag as int, p);
                        assert(!(lo * p <= sc));
                    }
                    Err(ExactError::Overflow)
                } else if rem != 0 {
                    proof {
                        lemma_mul_inequality(1, rem as int, pow2(e1 as nat) as int);
                        assert(rr > 0);
                        assert(sc == -((whole as int) * p + rr));
                        lemma_mul_unary_negation(whole as int, p);
                        assert((-(whole as int) - 1) * p == (-(whole as int)) * p - p);
                        assert(sc == (-(whole as int) - 1) * p + (p - rr));
                        lemma_fundamental_div_mod_converse(sc, p, -(whole as int) - 1, p - rr);
                        assert(sc % p != 0);
                        lemma_mul_inequality(lo, -(whole as int) - 1, p);
                        lemma_mul_inequality(0, whole as int, p);
                        assert(sc < 0);
                        lemma_mul_strict_inequality(0, hi, p);
                        assert(lo * p <= sc < hi * p);
                    }
                    Err(ExactError::Inexact)
                } else {
                    proof {
                        assert(rr == 0);
                        assert(sc == -((whole as int) * p));
                        lemma_mul_unary_negation(whole as int, p);
                        assert(sc == (-(whole as int)) * p);
                        lemma_fundamental_div_mod_converse(sc, p, -(whole as int), 0);
                        lemma_mul_inequality(lo, -(whole as int), p);
                        lemma_mul_inequality(-(whole as int), 0, p);
                        lemma_mul_strict_inequality(0, hi, p);
                    }
                    Ok(whole as u128)
                }
            } else {
                if (whole as u128) > hi_mag {
                    proof {
                        assert(sc == (whole as int) * p + rr);
                        lemma_mul_inequality(hi, whole as int, p);
                        assert(!(sc < hi * p));
                    }
                    Err(ExactError::Overflow)
                } else if rem != 0 {
                    proof {
                        lemma_mul_inequality(1, rem as int, pow2(e1 as nat) as int);
                        assert(rr > 0);
                        assert(sc == (whole as int) * p + rr);
                        lemma_fundamental_div_mod_converse(sc, p, whole as int, rr);
                        assert(sc % p != 0);
                        lemma_mul_inequality(lo, 0, p);
                        lemma_mul_inequality(0, whole as int, p);
                        assert((whole as int + 1) * p == (whole as int) * p + p);
                        lemma_mul_inequality(whole as int + 1, hi, p);
                        assert(lo * p <= sc < hi * p);
                    }
                    Err(ExactError::Inexact)
                } else {
                    proof {
                        assert(rr == 0);
                        assert(sc == (whole as int) * p);
                        lemma_fundamental_div_mod_converse(sc, p, whole as int, 0);
                        lemma_mul_inequality(lo, 0, p);
                        lemma_mul_inequality(0, whole as int, p);
                        lemma_mul_strict_inequality(whole as int, hi, p);
                    }
                    Ok(whole as u128)
                }
            }
        }
    }
}

} // verus!
