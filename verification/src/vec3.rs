//! Fixed-point 2- and 3-component vectors.
//!
//! `normalize_or_zero` is the controllers' zero-preserving normalization:
//! the zero vector maps to zero (no indeterminate direction), and every
//! result provably has squared magnitude at most one unit, thanks to the
//! ceiling square root in the divisor.

use vstd::prelude::*;
use crate::fixed::SCALE;
use crate::fixed::absi;
use crate::fixed::between_s;
use crate::fixed::in_range;
use crate::fixed::lemma_abs_mul;
use crate::fixed::lemma_tdiv_mag;
use crate::fixed::lerp_fx;
use crate::fixed::lerp_s;
use crate::fixed::tdiv;
use crate::fixed::tdiv_e;
use crate::isqrt::isqrt_ceil;
use crate::isqrt::sqrt_ceil;

verus! {

/// A pair of fixed-point scalars (a 2D axis value).
#[derive(Clone, Copy, PartialEq, Eq, Structural, Debug)]
pub struct Vec2Fx {
    pub x: i64,
    pub y: i64,
}

/// A triple of fixed-point scalars (a point or direction in world space).
#[derive(Clone, Copy, PartialEq, Eq, Structural, Debug)]
pub struct Vec3Fx {
    pub x: i64,
    pub y: i64,
    pub z: i64,
}

pub open spec fn v3_in_range(v: Vec3Fx) -> bool {
    in_range(v.x as int) && in_range(v.y as int) && in_range(v.z as int)
}

pub open spec fn is_zero3(v: Vec3Fx) -> bool {
    v.x == 0 && v.y == 0 && v.z == 0
}

/// Squared magnitude of a vector given by components.
pub open spec fn norm2_s(x: int, y: int, z: int) -> int {
    x * x + y * y + z * z
}

/// One truncated-division component of a normalization keeps its square,
/// scaled by `m^2`, within the undivided square scaled by `SCALE^2`.
proof fn lemma_div_sq_bound(xv: int, m: int)
    requires
        m > 0,
    ensures
        ({
            let t = tdiv(xv * (SCALE as int), m);
            absi(t) * m <= absi(xv) * (SCALE as int) && t * t * (m * m) <= xv * xv * ((
            SCALE as int) * (SCALE as int))
        }),
{
    let t = tdiv(xv * 1000, m);
    lemma_tdiv_mag(xv * 1000, m);
    lemma_abs_mul(xv, 1000);
    let a = absi(t);
    let b = absi(xv);
    assert(t * t * (m * m) <= xv * xv * 1_000_000) by (nonlinear_arith)
        requires
            a * m <= b * 1000,
            a >= 0,
            b >= 0,
            m > 0,
            t == a || t == -a,
            xv == b || xv == -b,
    ;
}

/// A vector divided by (at least) the ceiling root of its squared
/// magnitude has squared magnitude at most one unit, each component at
/// most one unit.
proof fn lemma_normalize_bounds(x: int, y: int, z: int, m: int)
    requires
        m > 0,
        norm2_s(x, y, z) <= m * m,
    ensures
        ({
            let ux = tdiv(x * (SCALE as int), m);
            let uy = tdiv(y * (SCALE as int), m);
            let uz = tdiv(z * (SCALE as int), m);
            norm2_s(ux, uy, uz) <= (SCALE as int) * (SCALE as int) && absi(ux) <= SCALE as int
                && absi(uy) <= SCALE as int && absi(uz) <= SCALE as int
        }),
{
    let ux = tdiv(x * 1000, m);
    let uy = tdiv(y * 1000, m);
    let uz = tdiv(z * 1000, m);
    lemma_div_sq_bound(x, m);
    lemma_div_sq_bound(y, m);
    lemma_div_sq_bound(z, m);
    assert(ux * ux * (m * m) + uy * uy * (m * m) + uz * uz * (m * m) == (ux * ux + uy * uy + uz
        * uz) * (m * m)) by (nonlinear_arith);
    assert((x * x + y * y + z * z) * 1_000_000 <= (m * m) * 1_000_000) by (nonlinear_arith)
        requires
            x * x + y * y + z * z <= m * m,
    ;
    assert(x * x * 1_000_000 + y * y * 1_000_000 + z * z * 1_000_000 == (x * x + y * y + z * z)
        * 1_000_000) by (nonlinear_arith);
    assert(ux * ux + uy * uy + uz * uz <= 1_000_000) by (nonlinear_arith)
        requires
            (ux * ux + uy * uy + uz * uz) * (m * m) <= (m * m) * 1_000_000,
            m > 0,
    ;
    lemma_abs_mul(x, x);
    lemma_abs_mul(y, y);
    lemma_abs_mul(z, z);
    assert(x * x >= 0 && y * y >= 0 && z * z >= 0) by (nonlinear_arith);
    assert(absi(x) <= m && absi(y) <= m && absi(z) <= m) by (nonlinear_arith)
        requires
            x * x + y * y + z * z <= m * m,
            m > 0,
            absi(x) * absi(x) == x * x,
            absi(y) * absi(y) == y * y,
            absi(z) * absi(z) == z * z,
            absi(x) >= 0,
            absi(y) >= 0,
            absi(z) >= 0,
    ;
    assert(absi(ux) <= 1000 && absi(uy) <= 1000 && absi(uz) <= 1000) by (nonlinear_arith)
        requires
            absi(ux) * m <= absi(x) * 1000,
            absi(uy) * m <= absi(y) * 1000,
            absi(uz) * m <= absi(z) * 1000,
            absi(x) <= m,
            absi(y) <= m,
            absi(z) <= m,
            m > 0,
            absi(ux) >= 0,
            absi(uy) >= 0,
            absi(uz) >= 0,
    ;
}

/// Zero-preserving normalization: the zero vector yields zero, any other
/// vector is scaled by `SCALE` and divided by the ceiling root of its
/// squared magnitude, so the result never exceeds unit length.
pub fn normalize_or_zero(v: Vec3Fx) -> (u: Vec3Fx)
    requires
        v3_in_range(v),
    ensures
        is_zero3(v) ==> u == (Vec3Fx { x: 0, y: 0, z: 0 }),
        !is_zero3(v) ==> ({
            let m = sqrt_ceil(norm2_s(v.x as int, v.y as int, v.z as int));
            u.x as int == tdiv(v.x as int * (SCALE as int), m) && u.y as int == tdiv(
                v.y as int * (SCALE as int),
                m,
            ) && u.z as int == tdiv(v.z as int * (SCALE as int), m)
        }),
        norm2_s(u.x as int, u.y as int, u.z as int) <= (SCALE as int) * (SCALE as int),
        absi(u.x as int) <= SCALE as int,
        absi(u.y as int) <= SCALE as int,
        absi(u.z as int) <= SCALE as int,
        v.y == 0 ==> u.y == 0,
{
    if v.x == 0 && v.y == 0 && v.z == 0 {
        Vec3Fx { x: 0, y: 0, z: 0 }
    } else {
        proof {
            assert(v.x as int * (v.x as int) <= 1_000_000_000_000_000_000 && v.x as int * (
            v.x as int) >= 0) by (nonlinear_arith)
                requires
                    absi(v.x as int) <= 1_000_000_000,
            ;
            assert(v.y as int * (v.y as int) <= 1_000_000_000_000_000_000 && v.y as int * (
            v.y as int) >= 0) by (nonlinear_arith)
                requires
                    absi(v.y as int) <= 1_000_000_000,
            ;
            assert(v.z as int * (v.z as int) <= 1_000_000_000_000_000_000 && v.z as int * (
            v.z as int) >= 0) by (nonlinear_arith)
                requires
                    absi(v.z as int) <= 1_000_000_000,
            ;
            assert(v.x != 0 ==> v.x as int * (v.x as int) > 0) by (nonlinear_arith);
            assert(v.y != 0 ==> v.y as int * (v.y as int) > 0) by (nonlinear_arith);
            assert(v.z != 0 ==> v.z as int * (v.z as int) > 0) by (nonlinear_arith);
        }
        let n: i64 = v.x * v.x + v.y * v.y + v.z * v.z;
        let m: i64 = isqrt_ceil(n);
        proof {
            assert(m > 0);
            lemma_normalize_bounds(v.x as int, v.y as int, v.z as int, m as int);
            lemma_tdiv_mag(0 * (SCALE as int), m as int);
        }
        let ux = tdiv_e(v.x * SCALE, m);
        let uy = tdiv_e(v.y * SCALE, m);
        let uz = tdiv_e(v.z * SCALE, m);
        Vec3Fx { x: ux, y: uy, z: uz }
    }
}

/// Component-wise sum (exact; the caller bounds the result).
pub fn add3(a: Vec3Fx, b: Vec3Fx) -> (r: Vec3Fx)
    requires
        v3_in_range(a),
        v3_in_range(b),
    ensures
        r.x as int == a.x as int + b.x as int,
        r.y as int == a.y as int + b.y as int,
        r.z as int == a.z as int + b.z as int,
{
    Vec3Fx { x: a.x + b.x, y: a.y + b.y, z: a.z + b.z }
}

/// Component-wise interpolation step toward `b`; each component lands
/// between the endpoints.
pub fn lerp3(a: Vec3Fx, b: Vec3Fx, t: i64) -> (r: Vec3Fx)
    requires
        v3_in_range(a),
        v3_in_range(b),
        0 <= t <= SCALE,
    ensures
        r.x as int == lerp_s(a.x as int, b.x as int, t as int),
        r.y as int == lerp_s(a.y as int, b.y as int, t as int),
        r.z as int == lerp_s(a.z as int, b.z as int, t as int),
        v3_in_range(r),
        between_s(a.x as int, b.x as int, r.x as int),
        between_s(a.y as int, b.y as int, r.y as int),
        between_s(a.z as int, b.z as int, r.z as int),
{
    let x = lerp_fx(a.x, b.x, t);
    let y = lerp_fx(a.y, b.y, t);
    let z = lerp_fx(a.z, b.z, t);
    Vec3Fx { x, y, z }
}

} // verus!
