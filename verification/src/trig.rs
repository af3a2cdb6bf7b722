//! Fixed-point trigonometry for the orbit camera.
//!
//! Angles are thousandths of a radian; a full turn is `TURN` and the model
//! takes `HALF_TURN` as its value of pi.  The sine is the classical
//! rational half-wave approximation, exact at 0, at a quarter turn and at a
//! half turn; the cosine is recovered through the floor square root, so
//! `sin^2 + cos^2` provably never leaves the unit circle.  These functions
//! are the library's own model of rotation: every contract downstream
//! speaks of `sin_fx` / `cos_fx` exactly.

use vstd::prelude::*;
use vstd::arithmetic::div_mod::lemma_div_is_ordered;
use vstd::arithmetic::div_mod::lemma_div_multiples_vanish;
use vstd::arithmetic::div_mod::lemma_fundamental_div_mod;
use vstd::arithmetic::div_mod::lemma_fundamental_div_mod_converse_mod;
use vstd::arithmetic::div_mod::lemma_mod_division_less_than_divisor;
use crate::fixed::SCALE;
use crate::fixed::absi;
use crate::fixed::in_range;
use crate::fixed::tdiv_e;
use crate::isqrt::sqrt_floor;
use crate::isqrt::lemma_sqrt_floor_char;
use crate::isqrt::isqrt_floor;

verus! {

/// Half a turn: the model's value of pi, in thousandths of a radian.
pub const HALF_TURN: i64 = 3142;

/// A quarter turn, where the cosine changes sign.
pub const QUARTER_TURN: i64 = 1571;

/// A full turn.
pub const TURN: i64 = 6284;

/// Principal angle: the representative of `a` in `(-HALF_TURN, HALF_TURN]`.
pub open spec fn wrap_angle(a: int) -> int {
    let r = a % (TURN as int);
    if r > HALF_TURN {
        r - TURN
    } else {
        r
    }
}

/// Rational half-wave sine on `[0, HALF_TURN]`, scaled by `SCALE`.
pub open spec fn sin_half_wave(x: int) -> int {
    let u = x * (HALF_TURN - x);
    (16 * u * (SCALE as int)) / (5 * (HALF_TURN as int) * (HALF_TURN as int) - 4 * u)
}

/// Fixed-point sine of an angle in thousandths of a radian.
pub open spec fn sin_fx(a: int) -> int {
    let r = wrap_angle(a);
    if r >= 0 {
        sin_half_wave(r)
    } else {
        -sin_half_wave(-r)
    }
}

/// Fixed-point cosine: magnitude from the floor root of `SCALE^2 - sin^2`,
/// sign from the quadrant of the principal angle.
pub open spec fn cos_fx(a: int) -> int {
    let r = wrap_angle(a);
    let s = sin_fx(a);
    let c = sqrt_floor((SCALE as int) * (SCALE as int) - s * s);
    if -QUARTER_TURN <= r <= QUARTER_TURN {
        c
    } else {
        -c
    }
}

/// The principal angle lies in `(-HALF_TURN, HALF_TURN]`.
pub proof fn lemma_wrap_angle_range(a: int)
    ensures
        -(HALF_TURN as int) < wrap_angle(a) <= HALF_TURN as int,
{
    lemma_mod_division_less_than_divisor(a, TURN as int);
}

/// A principal angle wraps to itself.
pub proof fn lemma_wrap_principal(r: int)
    requires
        -(HALF_TURN as int) < r <= HALF_TURN as int,
    ensures
        wrap_angle(r) == r,
{
    if r >= 0 {
        lemma_fundamental_div_mod_converse_mod(r, TURN as int, 0, r);
    } else {
        lemma_fundamental_div_mod_converse_mod(r, TURN as int, -1, r + TURN);
    }
}

/// The half-wave sine stays within `[0, SCALE]`.
pub proof fn lemma_sin_half_wave_bounds(x: int)
    requires
        0 <= x <= HALF_TURN as int,
    ensures
        0 <= sin_half_wave(x) <= SCALE as int,
{
    let u = x * (HALF_TURN - x);
    assert(0 <= x * (3142 - x) && 4 * (x * (3142 - x)) <= 3142 * 3142) by (nonlinear_arith)
        requires
            0 <= x <= 3142,
    ;
    let num = 16 * u * (SCALE as int);
    let den = 5 * (HALF_TURN as int) * (HALF_TURN as int) - 4 * u;
    assert(den > 0);
    assert(num >= 0);
    assert(num <= den * 1000);
    lemma_div_is_ordered(0, num, den);
    lemma_div_is_ordered(num, den * 1000, den);
    lemma_div_multiples_vanish(1000, den);
}

/// Sine magnitude never exceeds `SCALE`, and a nonnegative principal angle
/// has a nonnegative sine.
pub proof fn lemma_sin_bounds(a: int)
    ensures
        absi(sin_fx(a)) <= SCALE as int,
        wrap_angle(a) >= 0 ==> sin_fx(a) >= 0,
        wrap_angle(a) < 0 ==> sin_fx(a) <= 0,
{
    lemma_wrap_angle_range(a);
    let r = wrap_angle(a);
    if r >= 0 {
        lemma_sin_half_wave_bounds(r);
    } else {
        lemma_sin_half_wave_bounds(-r);
    }
}

/// The fixed-point sine and cosine stay on or inside the unit circle.
pub proof fn lemma_unit_circle(a: int)
    ensures
        absi(cos_fx(a)) <= SCALE as int,
        sin_fx(a) * sin_fx(a) + cos_fx(a) * cos_fx(a) <= (SCALE as int) * (SCALE as int),
{
    lemma_sin_bounds(a);
    let s = sin_fx(a);
    assert(s * s <= 1_000_000) by (nonlinear_arith)
        requires
            -1000 <= s <= 1000,
    ;
    assert(s * s >= 0) by (nonlinear_arith);
    let n2 = (SCALE as int) * (SCALE as int) - s * s;
    lemma_sqrt_floor_char(n2);
    let c0 = sqrt_floor(n2);
    assert(c0 <= 1000) by (nonlinear_arith)
        requires
            c0 >= 0,
            c0 * c0 <= 1_000_000,
    ;
    assert((-c0) * (-c0) == c0 * c0) by (nonlinear_arith);
}

/// Fixed-point sine and cosine of `a`, exactly `sin_fx(a)` / `cos_fx(a)`.
pub fn sin_cos(a: i64) -> (sc: (i64, i64))
    requires
        in_range(a as int),
    ensures
        sc.0 as int == sin_fx(a as int),
        sc.1 as int == cos_fx(a as int),
        absi(sc.0 as int) <= SCALE as int,
        absi(sc.1 as int) <= SCALE as int,
{
    let r = wrap_angle_e(a);
    proof {
        lemma_sin_bounds(a as int);
        lemma_unit_circle(a as int);
    }
    let x: i64 = if r >= 0 {
        r
    } else {
        -r
    };
    proof {
        assert(0 <= (x as int) * (3142 - x as int) && (x as int) * (3142 - x as int) <= 2_468_041)
            by (nonlinear_arith)
            requires
                0 <= (x as int) && (x as int) <= 3142,
        ;
    }
    let u: i64 = x * (HALF_TURN - x);
    let num: i64 = 16 * u * SCALE;
    let den: i64 = 5 * HALF_TURN * HALF_TURN - 4 * u;
    let smag: i64 = tdiv_e(num, den);
    proof {
        assert(smag as int == sin_half_wave(x as int));
        lemma_sin_half_wave_bounds(x as int);
    }
    let s: i64 = if r >= 0 {
        smag
    } else {
        -smag
    };
    proof {
        assert(s as int == sin_fx(a as int));
        assert((s as int) * (s as int) <= 1_000_000 && (s as int) * (s as int) >= 0)
            by (nonlinear_arith)
            requires
                -1000 <= (s as int) && (s as int) <= 1000,
        ;
    }
    let n2: i64 = SCALE * SCALE - s * s;
    let cmag: i64 = isqrt_floor(n2);
    let c: i64 = if -QUARTER_TURN <= r && r <= QUARTER_TURN {
        cmag
    } else {
        -cmag
    };
    proof {
        assert(c as int == cos_fx(a as int));
    }
    (s, c)
}

/// Principal angle, exactly `wrap_angle`.
pub fn wrap_angle_e(a: i64) -> (r: i64)
    requires
        i64::MIN < a,
    ensures
        r as int == wrap_angle(a as int),
        -HALF_TURN < r <= HALF_TURN,
{
    proof {
        lemma_wrap_angle_range(a as int);
    }
    let m: i64 = if a >= 0 {
        ((a as u64) % (TURN as u64)) as i64
    } else {
        let k: i64 = (((-a) as u64) % (TURN as u64)) as i64;
        proof {
            lemma_fundamental_div_mod((-a) as int, TURN as int);
            lemma_mod_division_less_than_divisor((-a) as int, TURN as int);
            let q0 = ((-a) as int) / (TURN as int);
            if k as int == 0 {
                lemma_fundamental_div_mod_converse_mod(a as int, TURN as int, -q0, 0);
            } else {
                lemma_fundamental_div_mod_converse_mod(
                    a as int,
                    TURN as int,
                    -q0 - 1,
                    TURN - k as int,
                );
            }
        }
        if k == 0 {
            0
        } else {
            TURN - k
        }
    };
    if m > HALF_TURN {
        m - TURN
    } else {
        m
    }
}

} // verus!
