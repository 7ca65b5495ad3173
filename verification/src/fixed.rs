//! 16.16 fixed-point scalars.
//!
//! A scalar is an `i64` holding the value scaled by `FX_ONE` = 2^16. All
//! operations saturate at the `i64` range, so they are total; multiplication
//! and division truncate toward zero. Each executable operation is pinned to a
//! spec-level counterpart over `int`.

use vstd::arithmetic::div_mod::lemma_div_multiples_vanish;
use vstd::prelude::*;

verus! {

/// Raw representation of 1.0: the scale factor 2^16.
pub const FX_ONE: i64 = 65536;

/// Raw representation of -1.0.
pub const FX_NEG_ONE: i64 = -65536;

/// Raw representation of 2.0.
pub const FX_TWO: i64 = 131072;

/// Raw representation of 0.5.
pub const FX_HALF: i64 = 32768;

/// A 16.16 fixed-point scalar: the represented value is `raw` / 2^16.
#[derive(Clone, Copy, Debug, PartialEq, Eq, Structural)]
pub struct Fx {
    pub raw: i64,
}

/// Magnitude of a mathematical integer.
pub open spec fn mag(v: int) -> int {
    if v >= 0 {
        v
    } else {
        -v
    }
}

/// Clamp a mathematical integer into the `i64` range.
pub open spec fn sat_i64(v: int) -> int {
    if v > i64::MAX as int {
        i64::MAX as int
    } else if v < i64::MIN as int {
        i64::MIN as int
    } else {
        v
    }
}

/// Division truncating toward zero (the quotient of the magnitudes, carrying
/// the sign of the exact quotient). Meaningful for `d != 0`.
pub open spec fn quot_trunc(n: int, d: int) -> int {
    if (n >= 0) == (d >= 0) {
        mag(n) / mag(d)
    } else {
        -(mag(n) / mag(d))
    }
}

/// What fixed-point addition returns.
pub open spec fn fx_add_spec(a: int, b: int) -> int {
    sat_i64(a + b)
}

/// What fixed-point subtraction returns.
pub open spec fn fx_sub_spec(a: int, b: int) -> int {
    sat_i64(a - b)
}

/// What fixed-point negation returns.
pub open spec fn fx_neg_spec(a: int) -> int {
    sat_i64(-a)
}

/// What fixed-point multiplication returns: the product rescaled by 2^16,
/// truncated toward zero, saturated at the `i64` range.
pub open spec fn fx_mul_spec(a: int, b: int) -> int {
    sat_i64(quot_trunc(a * b, FX_ONE as int))
}

/// What fixed-point division returns: the quotient prescaled by 2^16,
/// truncated toward zero, saturated at the `i64` range. Meaningful for
/// `b != 0`.
pub open spec fn fx_div_spec(a: int, b: int) -> int {
    sat_i64(quot_trunc(a * (FX_ONE as int), b))
}

/// What conversion from a whole number returns.
pub open spec fn fx_from_int_spec(v: int) -> int {
    sat_i64(v * (FX_ONE as int))
}

impl Fx {
    /// The scalar 0.
    pub fn zero() -> (r: Fx)
        ensures
            r.raw == 0,
    {
        Fx { raw: 0 }
    }

    /// The scalar 1.
    pub fn one() -> (r: Fx)
        ensures
            r.raw == FX_ONE,
    {
        Fx { raw: FX_ONE }
    }
}

/// Clamp an `i128` into the `i64` range.
fn clamp_to_i64(v: i128) -> (r: i64)
    ensures
        r as int == sat_i64(v as int),
{
    if v > i64::MAX as i128 {
        i64::MAX
    } else if v < i64::MIN as i128 {
        i64::MIN
    } else {
        v as i64
    }
}

/// Saturating fixed-point addition.
pub fn fx_add(a: Fx, b: Fx) -> (r: Fx)
    ensures
        r.raw as int == fx_add_spec(a.raw as int, b.raw as int),
{
    let s: i128 = a.raw as i128 + b.raw as i128;
    Fx { raw: clamp_to_i64(s) }
}

/// Saturating fixed-point subtraction.
pub fn fx_sub(a: Fx, b: Fx) -> (r: Fx)
    ensures
        r.raw as int == fx_sub_spec(a.raw as int, b.raw as int),
{
    let s: i128 = a.raw as i128 - b.raw as i128;
    Fx { raw: clamp_to_i64(s) }
}

/// Saturating fixed-point negation.
pub fn fx_neg(a: Fx) -> (r: Fx)
    ensures
        r.raw as int == fx_neg_spec(a.raw as int),
{
    if a.raw == i64::MIN {
        Fx { raw: i64::MAX }
    } else {
        Fx { raw: -a.raw }
    }
}

/// Apply a sign and clamp a magnitude into the `i64` range.
fn signed_clamp(neg: bool, q: u128) -> (r: i64)
    ensures
        r as int == sat_i64(
            if neg {
                -(q as int)
            } else {
                q as int
            },
        ),
{
    if neg {
        if q >= 9223372036854775808u128 {
            i64::MIN
        } else {
            -(q as i64)
        }
    } else {
        if q > 9223372036854775807u128 {
            i64::MAX
        } else {
            q as i64
        }
    }
}

/// Saturating, truncating fixed-point multiplication.
pub fn fx_mul(a: Fx, b: Fx) -> (r: Fx)
    ensures
        r.raw as int == fx_mul_spec(a.raw as int, b.raw as int),
{
    proof {
        assert((a.raw as int) * (b.raw as int) <= 0x40000000000000000000000000000000int
            && (a.raw as int) * (b.raw as int) >= -0x40000000000000000000000000000000int)
            by (nonlinear_arith)
            requires
                i64::MIN <= a.raw as int <= i64::MAX,
                i64::MIN <= b.raw as int <= i64::MAX,
        ;
    }
    let p: i128 = (a.raw as i128) * (b.raw as i128);
    let neg: bool = p < 0;
    let m: u128 = if p < 0 {
        (-p) as u128
    } else {
        p as u128
    };
    let q: u128 = m / 65536u128;
    proof {
        assert(m as int == mag((a.raw as int) * (b.raw as int)));
        assert(q as int == mag((a.raw as int) * (b.raw as int)) / (FX_ONE as int));
    }
    Fx { raw: signed_clamp(neg, q) }
}

/// Saturating, truncating fixed-point division. The divisor must not be zero.
pub fn fx_div(a: Fx, b: Fx) -> (r: Fx)
    requires
        b.raw != 0,
    ensures
        r.raw as int == fx_div_spec(a.raw as int, b.raw as int),
{
    let n: i128 = (a.raw as i128) * 65536;
    let neg: bool = (a.raw < 0) != (b.raw < 0);
    let mn: u128 = if n < 0 {
        (-n) as u128
    } else {
        n as u128
    };
    let bw: i128 = b.raw as i128;
    let mb: u128 = if bw < 0 {
        (-bw) as u128
    } else {
        bw as u128
    };
    let q: u128 = mn / mb;
    proof {
        assert(mn as int == mag((a.raw as int) * (FX_ONE as int)));
        assert(mb as int == mag(b.raw as int));
        assert(q as int == mag((a.raw as int) * (FX_ONE as int)) / mag(b.raw as int));
        assert(((a.raw as int) * (FX_ONE as int) >= 0) == (a.raw as int >= 0));
    }
    Fx { raw: signed_clamp(neg, q) }
}

/// Conversion from a whole number of units.
pub fn fx_from_int(v: i64) -> (r: Fx)
    ensures
        r.raw as int == fx_from_int_spec(v as int),
{
    let s: i128 = (v as i128) * 65536;
    Fx { raw: clamp_to_i64(s) }
}

/// Multiplying by the scalar 1 is the identity.
pub proof fn lemma_fx_mul_one(a: int)
    requires
        i64::MIN <= a <= i64::MAX,
    ensures
        fx_mul_spec(a, FX_ONE as int) == a,
        fx_mul_spec(FX_ONE as int, a) == a,
{
    lemma_div_multiples_vanish(mag(a), FX_ONE as int);
    assert(mag(a * (FX_ONE as int)) == mag(a) * (FX_ONE as int)) by (nonlinear_arith);
    assert(mag((FX_ONE as int) * a) == mag(a) * (FX_ONE as int)) by (nonlinear_arith);
    assert((a * (FX_ONE as int) >= 0) == (a >= 0));
    assert(((FX_ONE as int) * a >= 0) == (a >= 0)) by (nonlinear_arith);
}

/// Multiplying by the scalar 0 yields 0.
pub proof fn lemma_fx_mul_zero(a: int)
    ensures
        fx_mul_spec(a, 0) == 0,
        fx_mul_spec(0, a) == 0,
{
    assert(a * 0 == 0) by (nonlinear_arith);
    assert(0 * a == 0) by (nonlinear_arith);
}

} // verus!
