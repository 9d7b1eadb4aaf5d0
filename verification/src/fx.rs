//! Saturating 16.16 fixed-point scalar arithmetic.
//!
//! The solver works on scalars of type `i64` interpreted as multiples of
//! `1 / FX_ONE`. Every operation saturates at the `i64` range and rounds
//! multiplicative results toward zero, and every operation's contract states
//! the result exactly over mathematical integers, so whole solver passes are
//! deterministic functions of their inputs.

use vstd::prelude::*;

verus! {

/// Number of fixed-point units per 1.0: the scalar `x` denotes `x / FX_ONE`.
pub const FX_ONE: i64 = 65536;

/// Magnitude of an integer.
pub open spec fn fx_mag(x: int) -> int {
    if x < 0 {
        -x
    } else {
        x
    }
}

/// Saturation of an integer into the `i64` range.
pub open spec fn sat64(x: int) -> int {
    if x < i64::MIN {
        i64::MIN as int
    } else if x > i64::MAX {
        i64::MAX as int
    } else {
        x
    }
}

/// Quotient of `n` by `d` rounded toward zero; 0 when `d` is 0, matching the
/// solver's convention that a singular effective mass contributes nothing.
pub open spec fn rtz_div(n: int, d: int) -> int {
    if d == 0 {
        0
    } else if (n < 0) == (d < 0) {
        fx_mag(n) / fx_mag(d)
    } else {
        -(fx_mag(n) / fx_mag(d))
    }
}

/// The exact value of a saturating fixed-point sum.
pub open spec fn fx_add_v(a: int, b: int) -> int {
    sat64(a + b)
}

/// The exact value of a saturating fixed-point difference.
pub open spec fn fx_sub_v(a: int, b: int) -> int {
    sat64(a - b)
}

/// The exact value of a saturating fixed-point product.
pub open spec fn fx_mul_v(a: int, b: int) -> int {
    sat64(rtz_div(a * b, FX_ONE as int))
}

/// The exact value of a saturating fixed-point quotient.
pub open spec fn fx_div_v(a: int, b: int) -> int {
    sat64(rtz_div(a * (FX_ONE as int), b))
}

/// The exact value of the fixed-point inverse, with inverse-of-zero zero.
pub open spec fn inv_v(x: int) -> int {
    if x == 0 {
        0
    } else {
        fx_div_v(FX_ONE as int, x)
    }
}

proof fn lemma_mag_mul(a: int, b: int)
    ensures
        fx_mag(a * b) == fx_mag(a) * fx_mag(b),
        (a * b < 0) <==> ((a < 0) != (b < 0) && a != 0 && b != 0),
        (a * b == 0) <==> (a == 0 || b == 0),
{
    assert(fx_mag(a * b) == fx_mag(a) * fx_mag(b)
        && ((a * b < 0) <==> ((a < 0) != (b < 0) && a != 0 && b != 0))
        && ((a * b == 0) <==> (a == 0 || b == 0))) by (nonlinear_arith);
}

/// The fixed-point square of a scalar is never negative.
pub proof fn lemma_fx_square_nonneg(x: int)
    ensures
        fx_mul_v(x, x) >= 0,
{
    assert(x * x >= 0) by (nonlinear_arith);
    assert(rtz_div(x * x, FX_ONE as int) >= 0);
}

fn mag_u128(a: i64) -> (m: u128)
    ensures
        m as int == fx_mag(a as int),
{
    if a >= 0 {
        a as u128
    } else {
        (-(a as i128)) as u128
    }
}

fn sat_from_mag(m: u128, neg: bool) -> (r: i64)
    ensures
        r as int == sat64(if neg { -(m as int) } else { m as int }),
{
    if neg {
        if m > 9223372036854775808u128 {
            i64::MIN
        } else {
            (-(m as i128)) as i64
        }
    } else {
        if m > 9223372036854775807u128 {
            i64::MAX
        } else {
            m as i64
        }
    }
}

fn sat_i128(s: i128) -> (r: i64)
    ensures
        r as int == sat64(s as int),
{
    if s > i64::MAX as i128 {
        i64::MAX
    } else if s < i64::MIN as i128 {
        i64::MIN
    } else {
        s as i64
    }
}

/// Saturating fixed-point addition.
pub fn fx_add(a: i64, b: i64) -> (r: i64)
    ensures
        r as int == fx_add_v(a as int, b as int),
{
    sat_i128(a as i128 + b as i128)
}

/// Saturating fixed-point subtraction.
pub fn fx_sub(a: i64, b: i64) -> (r: i64)
    ensures
        r as int == fx_sub_v(a as int, b as int),
{
    sat_i128(a as i128 - b as i128)
}

/// Saturating fixed-point negation.
pub fn fx_neg(a: i64) -> (r: i64)
    ensures
        r as int == sat64(-(a as int)),
{
    sat_i128(-(a as i128))
}

/// Saturating fixed-point multiplication, rounding toward zero.
pub fn fx_mul(a: i64, b: i64) -> (r: i64)
    ensures
        r as int == fx_mul_v(a as int, b as int),
{
    let am = mag_u128(a);
    let bm = mag_u128(b);
    proof {
        assert(am * bm <= 9223372036854775808u128 * 9223372036854775808u128)
            by (nonlinear_arith)
            requires
                am <= 9223372036854775808u128,
                bm <= 9223372036854775808u128,
        ;
        lemma_mag_mul(a as int, b as int);
    }
    let m = (am * bm) / (FX_ONE as u128);
    let neg = (a < 0) != (b < 0);
    sat_from_mag(m, neg)
}

/// Saturating fixed-point division, rounding toward zero; 0 when `b` is 0.
pub fn fx_div(a: i64, b: i64) -> (r: i64)
    ensures
        r as int == fx_div_v(a as int, b as int),
        b == 0 ==> r == 0,
{
    if b == 0 {
        return 0;
    }
    let am = mag_u128(a);
    let bm = mag_u128(b);
    proof {
        assert(am * (FX_ONE as u128) <= 9223372036854775808u128 * 65536u128)
            by (nonlinear_arith)
            requires
                am <= 9223372036854775808u128,
        ;
        lemma_mag_mul(a as int, FX_ONE as int);
    }
    let m = (am * (FX_ONE as u128)) / bm;
    let neg = (a < 0) != (b < 0);
    sat_from_mag(m, neg)
}

/// Multiplicative inverse of a fixed-point scalar, with the convention that
/// the inverse of zero is zero: a singular quantity contributes nothing.
pub fn inv(val: i64) -> (r: i64)
    ensures
        val == 0 ==> r == 0,
        val != 0 ==> r as int == fx_div_v(FX_ONE as int, val as int),
{
    if val == 0 {
        0
    } else {
        fx_div(FX_ONE, val)
    }
}

/// Clamp of a scalar into a closed interval.
pub fn fx_clamp(x: i64, lo: i64, hi: i64) -> (r: i64)
    requires
        lo <= hi,
    ensures
        r == if x < lo { lo } else if x > hi { hi } else { x },
        lo <= r <= hi,
{
    if x < lo {
        lo
    } else if x > hi {
        hi
    } else {
        x
    }
}

/// Minimum of two scalars.
pub fn fx_min(a: i64, b: i64) -> (r: i64)
    ensures
        r == if a <= b { a } else { b },
{
    if a <= b {
        a
    } else {
        b
    }
}

/// Maximum of two scalars.
pub fn fx_max(a: i64, b: i64) -> (r: i64)
    ensures
        r == if a >= b { a } else { b },
{
    if a >= b {
        a
    } else {
        b
    }
}

/// Saturating magnitude of a scalar.
pub fn fx_abs(a: i64) -> (r: i64)
    ensures
        r as int == sat64(fx_mag(a as int)),
{
    if a >= 0 {
        a
    } else {
        fx_neg(a)
    }
}

/// Trait to copy the sign of one scalar or of each component of one vector to
/// another.
pub trait WSign<Rhs> {
    /// Copy the sign of each component of `self` to the corresponding
    /// component of `to`.
    fn copy_sign_to(self, to: Rhs) -> Rhs;
}

impl WSign<i64> for i64 {
    fn copy_sign_to(self, to: i64) -> (r: i64)
        ensures
            r as int == sat64(if self < 0 { -fx_mag(to as int) } else { fx_mag(to as int) }),
    {
        if self < 0 {
            if to <= 0 {
                to
            } else {
                -to
            }
        } else {
            fx_abs(to)
        }
    }
}

/// Of a pair, the element that is not `elt`; `elt` is expected to be one of
/// the two. Used to walk from one endpoint of an interaction-graph edge to
/// the other.
pub fn select_other(pair: (u64, u64), elt: u64) -> (r: u64)
    ensures
        elt == pair.0 ==> r == pair.1,
        elt != pair.0 ==> r == pair.0,
{
    if pair.0 == elt {
        pair.1
    } else {
        pair.0
    }
}

} // verus!
