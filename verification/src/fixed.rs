//! Fixed-point scalars.
//!
//! Every scalar of the movement core (angles, distances, speeds, frame
//! times) is an `i64` counting thousandths of a unit.  Products divide by
//! `SCALE` rounding toward zero, as the update formulas of the controllers
//! require; all rounding is pinned down exactly in the contracts.

use vstd::prelude::*;
use vstd::arithmetic::div_mod::lemma_div_is_ordered;
use vstd::arithmetic::div_mod::lemma_div_of0;
use vstd::arithmetic::div_mod::lemma_div_multiples_vanish;
use vstd::arithmetic::div_mod::lemma_div_nonincreasing;
use vstd::arithmetic::div_mod::lemma_div_pos_is_pos;

verus! {

/// Fixed-point scale: a scalar of value `v` stands for `v / 1000` units.
pub const SCALE: i64 = 1000;

/// Magnitude cap on every scalar the controllers store: one million units.
pub const MAG_LIMIT: i64 = 1_000_000_000;

/// Larger magnitude cap accepted by the raw fixed-point product, so that a
/// difference of two in-range scalars can still be multiplied safely.
pub const MUL_LIMIT: i64 = 3_000_000_000;

/// Magnitude cap on tuning constants, per-frame inputs, speeds and
/// distances: a thousand units.
pub const TUNE_LIMIT: i64 = 1_000_000;

/// Rim of the model world: body positions saturate at this magnitude.
pub const POS_LIMIT: i64 = 900_000_000;

/// `x` lies between `a` and `b` (in either order), inclusive.
pub open spec fn between_s(a: int, b: int, x: int) -> bool {
    (a <= x <= b) || (b <= x <= a)
}

pub open spec fn absi(a: int) -> int {
    if a >= 0 {
        a
    } else {
        -a
    }
}

/// The range every stored scalar keeps to.
pub open spec fn in_range(a: int) -> bool {
    -MAG_LIMIT <= a <= MAG_LIMIT
}

/// Division truncating toward zero, the rounding of this fixed-point
/// arithmetic, defined from Euclidean division on magnitudes.
pub open spec fn tdiv(a: int, b: int) -> int
    recommends
        b > 0,
{
    if a >= 0 {
        a / b
    } else {
        -((-a) / b)
    }
}

/// Fixed-point product: `(a * b) / SCALE`, truncated toward zero.
pub open spec fn fmul_s(a: int, b: int) -> int {
    tdiv(a * b, SCALE as int)
}

pub open spec fn clamp_s(a: int, lo: int, hi: int) -> int {
    if a < lo {
        lo
    } else if a > hi {
        hi
    } else {
        a
    }
}

/// One interpolation step: move `a` toward `b` by the fraction `t` (in
/// thousandths) of the gap.
pub open spec fn lerp_s(a: int, b: int, t: int) -> int {
    a + fmul_s(b - a, t)
}

/// The quotient never grows past the dividend, keeps its sign, and
/// multiplied back by the divisor stays within the dividend's magnitude.
pub proof fn lemma_tdiv_mag(a: int, b: int)
    requires
        b > 0,
    ensures
        absi(tdiv(a, b)) * b <= absi(a),
        absi(tdiv(a, b)) <= absi(a),
        a >= 0 ==> tdiv(a, b) >= 0,
        a <= 0 ==> tdiv(a, b) <= 0,
{
    let m = absi(a);
    assert((m / b) * b <= m) by (nonlinear_arith)
        requires
            m >= 0,
            b > 0,
    ;
    assert(m / b >= 0) by {
        if m > 0 {
            lemma_div_pos_is_pos(m, b);
        }
    }
    lemma_div_nonincreasing(m, b);
    if a >= 0 {
        assert(tdiv(a, b) == m / b);
    } else {
        assert(tdiv(a, b) == -(m / b));
    }
}

/// The magnitude of a product is the product of the magnitudes.
pub proof fn lemma_abs_mul(a: int, b: int)
    ensures
        absi(a * b) == absi(a) * absi(b),
{
    if a >= 0 && b >= 0 {
        assert(a * b >= 0) by (nonlinear_arith)
            requires
                a >= 0,
                b >= 0,
        ;
    } else if a >= 0 && b < 0 {
        assert(a * b <= 0 && a * (-b) == -(a * b)) by (nonlinear_arith)
            requires
                a >= 0,
                b < 0,
        ;
    } else if a < 0 && b >= 0 {
        assert(a * b <= 0 && (-a) * b == -(a * b)) by (nonlinear_arith)
            requires
                a < 0,
                b >= 0,
        ;
    } else {
        assert(a * b >= 0 && (-a) * (-b) == a * b) by (nonlinear_arith)
            requires
                a < 0,
                b < 0,
        ;
    }
}

/// Multiplying by a factor no larger than `SCALE` in magnitude never grows
/// a scalar's magnitude.
pub proof fn lemma_fmul_contracts(a: int, b: int)
    requires
        absi(b) <= SCALE,
    ensures
        absi(fmul_s(a, b)) <= absi(a),
{
    let p = a * b;
    lemma_abs_mul(a, b);
    assert(absi(a) * absi(b) <= absi(a) * 1000) by (nonlinear_arith)
        requires
            absi(b) <= 1000,
            absi(a) >= 0,
    ;
    lemma_tdiv_mag(p, 1000);
    assert(absi(tdiv(p, 1000)) * 1000 <= absi(a) * 1000);
}

/// A zero factor yields a zero product.
pub proof fn lemma_fmul_zero(b: int)
    ensures
        fmul_s(0, b) == 0,
{
    assert(0 * b == 0) by (nonlinear_arith);
    lemma_div_of0(1000);
}

/// Scaling by exactly `SCALE` (one unit) is the identity.
pub proof fn lemma_fmul_scale_identity(a: int)
    ensures
        fmul_s(a, SCALE as int) == a,
{
    if a >= 0 {
        lemma_div_multiples_vanish(a, 1000);
    } else {
        lemma_div_multiples_vanish(-a, 1000);
    }
}

/// An interpolation step with a fraction in `[0, SCALE]` lands between its
/// endpoints: it approaches `b` without overshooting past it.
pub proof fn lemma_lerp_between(a: int, b: int, t: int)
    requires
        0 <= t <= SCALE,
    ensures
        a <= b ==> a <= lerp_s(a, b, t) <= b,
        b <= a ==> b <= lerp_s(a, b, t) <= a,
{
    let d = b - a;
    let p = d * t;
    if d >= 0 {
        assert(0 <= d * t && d * t <= d * 1000) by (nonlinear_arith)
            requires
                0 <= t <= 1000,
                d >= 0,
        ;
        lemma_div_is_ordered(0, p, 1000);
        lemma_div_is_ordered(p, d * 1000, 1000);
        lemma_div_multiples_vanish(d, 1000);
        assert(tdiv(p, 1000) == p / 1000);
        assert(0 <= tdiv(p, 1000) <= d);
    } else {
        let n = -d;
        let q = n * t;
        assert(0 <= n * t && n * t <= n * 1000) by (nonlinear_arith)
            requires
                0 <= t <= 1000,
                n >= 0,
        ;
        assert((-d) * t == -(d * t)) by (nonlinear_arith);
        lemma_div_is_ordered(0, q, 1000);
        lemma_div_is_ordered(q, n * 1000, 1000);
        lemma_div_multiples_vanish(n, 1000);
        assert(tdiv(p, 1000) == -(q / 1000));
        assert(d <= tdiv(p, 1000) <= 0);
    }
}

/// Quotient of nonnegative scalars, computed on unsigned words.
fn div_nonneg(a: i64, b: i64) -> (q: i64)
    requires
        0 <= a,
        0 < b,
    ensures
        q == (a as int) / (b as int),
        0 <= q <= a,
{
    let au: u64 = a as u64;
    let bu: u64 = b as u64;
    let qu: u64 = au / bu;
    proof {
        lemma_div_nonincreasing(au as int, bu as int);
        if au as int > 0 {
            lemma_div_pos_is_pos(au as int, bu as int);
        }
    }
    qu as i64
}

/// Division truncating toward zero, matching `tdiv`.
pub fn tdiv_e(a: i64, b: i64) -> (q: i64)
    requires
        i64::MIN < a,
        0 < b,
    ensures
        q == tdiv(a as int, b as int),
        absi(q as int) <= absi(a as int),
{
    if a >= 0 {
        div_nonneg(a, b)
    } else {
        let m = div_nonneg(-a, b);
        -m
    }
}

/// Fixed-point product, matching `fmul_s`.
pub fn fmul(a: i64, b: i64) -> (r: i64)
    requires
        absi(a as int) <= MUL_LIMIT,
        absi(b as int) <= MUL_LIMIT,
    ensures
        r == fmul_s(a as int, b as int),
{
    proof {
        assert(absi((a as int) * (b as int)) <= 9_000_000_000_000_000_000) by (nonlinear_arith)
            requires
                absi(a as int) <= 3_000_000_000,
                absi(b as int) <= 3_000_000_000,
        ;
    }
    let p: i64 = a * b;
    tdiv_e(p, SCALE)
}

/// Clamp into `[lo, hi]`, matching `clamp_s`.
pub fn clamp_fx(a: i64, lo: i64, hi: i64) -> (r: i64)
    requires
        lo <= hi,
    ensures
        r == clamp_s(a as int, lo as int, hi as int),
{
    if a < lo {
        lo
    } else if a > hi {
        hi
    } else {
        a
    }
}

/// One interpolation step toward `b`, matching `lerp_s`; the result stays
/// between the endpoints.
pub fn lerp_fx(a: i64, b: i64, t: i64) -> (r: i64)
    requires
        in_range(a as int),
        in_range(b as int),
        0 <= t <= SCALE,
    ensures
        r == lerp_s(a as int, b as int, t as int),
        in_range(r as int),
        a <= b ==> a <= r <= b,
        b <= a ==> b <= r <= a,
{
    let d: i64 = b - a;
    let step: i64 = fmul(d, t);
    proof {
        lemma_lerp_between(a as int, b as int, t as int);
    }
    a + step
}

} // verus!
