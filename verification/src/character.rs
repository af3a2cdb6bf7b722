//! Character motion: movement intent to camera-relative target velocity.
//!
//! The character faces away from the camera, so the movement intent is
//! rotated about the world Y axis by half a turn plus the camera yaw; the
//! half-turn is folded in algebraically (it negates sine and cosine), so
//! the contracts stay exact.  The target velocity's squared magnitude is
//! proved never to exceed the squared lateral speed.

use vstd::prelude::*;
use vstd::arithmetic::div_mod::lemma_div_of0;
use crate::fixed::SCALE;
use crate::fixed::TUNE_LIMIT;
use crate::fixed::absi;
use crate::fixed::fmul;
use crate::fixed::fmul_s;
use crate::fixed::in_range;
use crate::fixed::lemma_abs_mul;
use crate::fixed::lemma_tdiv_mag;
use crate::fixed::tdiv;
use crate::fixed::tdiv_e;
use crate::isqrt::sqrt_ceil;
use crate::trig::cos_fx;
use crate::trig::sin_fx;
use crate::trig::lemma_unit_circle;
use crate::trig::sin_cos;
use crate::vec3::Vec2Fx;
use crate::vec3::Vec3Fx;
use crate::vec3::norm2_s;
use crate::vec3::normalize_or_zero;

verus! {

/// Tuning of one controllable body.
#[derive(Clone, Copy, PartialEq, Eq, Structural, Debug)]
pub struct Character {
    /// Max horizontal speed magnitude.
    pub lateral_speed: i64,
    /// Rate at which current velocity approaches target velocity.
    pub lateral_acceleration: i64,
    /// Reserved for body-facing interpolation; read by no update today.
    pub rotation_speed: i64,
    /// Vertical offset from body origin to the head reference point.
    pub height: i64,
}

pub open spec fn character_wf(c: Character) -> bool {
    &&& 0 <= c.lateral_speed <= TUNE_LIMIT
    &&& 0 <= c.lateral_acceleration <= TUNE_LIMIT
    &&& 0 <= c.rotation_speed <= TUNE_LIMIT
    &&& 0 <= c.height <= TUNE_LIMIT
}

impl Default for Character {
    /// Stock tuning: 10 units/s speed and acceleration, 1.8 units tall.
    fn default() -> (c: Self)
        ensures
            c == (Character {
                lateral_speed: 10_000,
                lateral_acceleration: 10_000,
                rotation_speed: 10_000,
                height: 1_800,
            }),
            character_wf(c),
    {
        Character {
            lateral_speed: 10_000,
            lateral_acceleration: 10_000,
            rotation_speed: 10_000,
            height: 1_800,
        }
    }
}

impl Character {
    /// Head offset above the body origin, the camera's aim target.
    pub fn height(&self) -> (h: i64)
        ensures
            h == self.height,
    {
        self.height
    }
}

/// X component of the normalized movement intent `(mx, 0, mz)`.
pub open spec fn unit_move_x(mx: int, mz: int) -> int {
    if mx == 0 && mz == 0 {
        0
    } else {
        tdiv(mx * (SCALE as int), sqrt_ceil(norm2_s(mx, 0, mz)))
    }
}

/// Z component of the normalized movement intent `(mx, 0, mz)`.
pub open spec fn unit_move_z(mx: int, mz: int) -> int {
    if mx == 0 && mz == 0 {
        0
    } else {
        tdiv(mz * (SCALE as int), sqrt_ceil(norm2_s(mx, 0, mz)))
    }
}

/// X of `(ux, 0, uz)` rotated about Y by half a turn plus `yaw` (the
/// half-turn negates sine and cosine, hence the leading minus).
pub open spec fn facing_dir_x(yaw: int, ux: int, uz: int) -> int {
    -tdiv(ux * cos_fx(yaw) + uz * sin_fx(yaw), SCALE as int)
}

/// Z of `(ux, 0, uz)` rotated about Y by half a turn plus `yaw`.
pub open spec fn facing_dir_z(yaw: int, ux: int, uz: int) -> int {
    tdiv(ux * sin_fx(yaw) - uz * cos_fx(yaw), SCALE as int)
}

/// X of the target velocity for a movement intent under a camera yaw.
pub open spec fn tv_x(c: Character, yaw: int, movement: Vec2Fx) -> int {
    fmul_s(
        facing_dir_x(
            yaw,
            unit_move_x(movement.x as int, movement.y as int),
            unit_move_z(movement.x as int, movement.y as int),
        ),
        c.lateral_speed as int,
    )
}

/// Z of the target velocity for a movement intent under a camera yaw.
pub open spec fn tv_z(c: Character, yaw: int, movement: Vec2Fx) -> int {
    fmul_s(
        facing_dir_z(
            yaw,
            unit_move_x(movement.x as int, movement.y as int),
            unit_move_z(movement.x as int, movement.y as int),
        ),
        c.lateral_speed as int,
    )
}

/// The squared magnitude of a rotated vector is the product of the squared
/// magnitudes of the vector and of the sine/cosine pair.
proof fn lemma_rot_identity(a: int, b: int, s: int, c: int)
    ensures
        (a * c + b * s) * (a * c + b * s) + (a * s - b * c) * (a * s - b * c) == (a * a + b * b) * (
        s * s + c * c),
{
    let p = a * c;
    let q = b * s;
    let r = a * s;
    let t = b * c;
    assert((p + q) * (p + q) == p * p + 2 * (p * q) + q * q) by (nonlinear_arith);
    assert((r - t) * (r - t) == r * r - 2 * (r * t) + t * t) by (nonlinear_arith);
    assert((a * c) * (a * c) == (a * a) * (c * c)) by (nonlinear_arith);
    assert((b * s) * (b * s) == (b * b) * (s * s)) by (nonlinear_arith);
    assert((a * s) * (a * s) == (a * a) * (s * s)) by (nonlinear_arith);
    assert((b * c) * (b * c) == (b * b) * (c * c)) by (nonlinear_arith);
    assert((a * c) * (b * s) == (a * s) * (b * c)) by (nonlinear_arith);
    assert((a * a + b * b) * (s * s + c * c) == (a * a) * (s * s) + (a * a) * (c * c) + (b * b) * (s
        * s) + (b * b) * (c * c)) by (nonlinear_arith);
}

/// Rotating a sub-unit vector by sine/cosine values on or inside the unit
/// circle keeps it sub-unit.
proof fn lemma_rotation_norm(ux: int, uz: int, s: int, c: int)
    requires
        ux * ux + uz * uz <= 1_000_000,
        s * s + c * c <= 1_000_000,
    ensures
        ({
            let p = tdiv(ux * c + uz * s, SCALE as int);
            let q = tdiv(ux * s - uz * c, SCALE as int);
            p * p + q * q <= 1_000_000 && (-p) * (-p) == p * p
        }),
{
    let nx = ux * c + uz * s;
    let nz = ux * s - uz * c;
    let p = tdiv(nx, 1000);
    let q = tdiv(nz, 1000);
    lemma_rot_identity(ux, uz, s, c);
    assert((ux * ux + uz * uz) * (s * s + c * c) <= 1_000_000 * 1_000_000) by (nonlinear_arith)
        requires
            ux * ux + uz * uz <= 1_000_000,
            s * s + c * c <= 1_000_000,
    ;
    lemma_tdiv_mag(nx, 1000);
    lemma_tdiv_mag(nz, 1000);
    assert(p * p * 1_000_000 <= nx * nx) by (nonlinear_arith)
        requires
            absi(p) * 1000 <= absi(nx),
            absi(p) >= 0,
            absi(nx) >= 0,
            p == absi(p) || p == -absi(p),
            nx == absi(nx) || nx == -absi(nx),
    ;
    assert(q * q * 1_000_000 <= nz * nz) by (nonlinear_arith)
        requires
            absi(q) * 1000 <= absi(nz),
            absi(q) >= 0,
            absi(nz) >= 0,
            q == absi(q) || q == -absi(q),
            nz == absi(nz) || nz == -absi(nz),
    ;
    assert(p * p + q * q <= 1_000_000) by (nonlinear_arith)
        requires
            p * p * 1_000_000 <= nx * nx,
            q * q * 1_000_000 <= nz * nz,
            nx * nx + nz * nz <= 1_000_000 * 1_000_000,
    ;
    assert((-p) * (-p) == p * p) by (nonlinear_arith);
}

/// Scaling a sub-unit direction by a nonnegative speed keeps the squared
/// magnitude within the squared speed.
proof fn lemma_scale_norm(rx: int, rz: int, sp: int)
    requires
        rx * rx + rz * rz <= 1_000_000,
        0 <= sp,
    ensures
        ({
            let tx = fmul_s(rx, sp);
            let tz = fmul_s(rz, sp);
            tx * tx + tz * tz <= sp * sp
        }),
{
    let tx = tdiv(rx * sp, 1000);
    let tz = tdiv(rz * sp, 1000);
    lemma_tdiv_mag(rx * sp, 1000);
    lemma_tdiv_mag(rz * sp, 1000);
    lemma_abs_mul(rx, sp);
    lemma_abs_mul(rz, sp);
    assert(tx * tx * 1_000_000 <= rx * rx * (sp * sp)) by (nonlinear_arith)
        requires
            absi(tx) * 1000 <= absi(rx) * sp,
            absi(tx) >= 0,
            absi(rx) >= 0,
            sp >= 0,
            tx == absi(tx) || tx == -absi(tx),
            rx == absi(rx) || rx == -absi(rx),
    ;
    assert(tz * tz * 1_000_000 <= rz * rz * (sp * sp)) by (nonlinear_arith)
        requires
            absi(tz) * 1000 <= absi(rz) * sp,
            absi(tz) >= 0,
            absi(rz) >= 0,
            sp >= 0,
            tz == absi(tz) || tz == -absi(tz),
            rz == absi(rz) || rz == -absi(rz),
    ;
    assert(tx * tx + tz * tz <= sp * sp) by (nonlinear_arith)
        requires
            tx * tx * 1_000_000 <= rx * rx * (sp * sp),
            tz * tz * 1_000_000 <= rz * rz * (sp * sp),
            rx * rx + rz * rz <= 1_000_000,
            sp >= 0,
    ;
}

/// A zero movement intent yields a zero target velocity under every yaw:
/// the zero-preserving normalization never manufactures a direction.
pub proof fn lemma_zero_move_zero_target(c: Character, yaw: int)
    ensures
        tv_x(c, yaw, Vec2Fx { x: 0, y: 0 }) == 0,
        tv_z(c, yaw, Vec2Fx { x: 0, y: 0 }) == 0,
{
    lemma_div_of0(1000);
    assert(0 * cos_fx(yaw) == 0 && 0 * sin_fx(yaw) == 0) by (nonlinear_arith);
    assert(facing_dir_x(yaw, 0, 0) == 0);
    assert(facing_dir_z(yaw, 0, 0) == 0);
    assert(0 * (c.lateral_speed as int) == 0) by (nonlinear_arith);
}

/// Camera-relative target velocity of the movement intent: the intent is
/// normalized (zero-preserving), rotated to face away from the camera, and
/// scaled by the lateral speed.  Its magnitude never exceeds the lateral
/// speed, and it is purely horizontal.
pub fn target_velocity(character: &Character, yaw: i64, movement: Vec2Fx) -> (tv: Vec3Fx)
    requires
        character_wf(*character),
        in_range(yaw as int),
        -TUNE_LIMIT <= movement.x <= TUNE_LIMIT,
        -TUNE_LIMIT <= movement.y <= TUNE_LIMIT,
    ensures
        tv.x as int == tv_x(*character, yaw as int, movement),
        tv.z as int == tv_z(*character, yaw as int, movement),
        tv.y == 0,
        tv.x as int * (tv.x as int) + tv.z as int * (tv.z as int) <= character.lateral_speed as int
            * (character.lateral_speed as int),
        movement.x == 0 && movement.y == 0 ==> tv.x == 0 && tv.z == 0,
        absi(tv.x as int) <= character.lateral_speed as int,
        absi(tv.z as int) <= character.lateral_speed as int,
{
    let u = normalize_or_zero(Vec3Fx { x: movement.x, y: 0, z: movement.y });
    let sc = sin_cos(yaw);
    let s = sc.0;
    let c = sc.1;
    proof {
        lemma_unit_circle(yaw as int);
        lemma_abs_mul(u.x as int, c as int);
        lemma_abs_mul(u.z as int, s as int);
        lemma_abs_mul(u.x as int, s as int);
        lemma_abs_mul(u.z as int, c as int);
        assert(absi(u.x as int * (c as int)) <= 1_000_000 && absi(
            u.z as int * (s as int),
        ) <= 1_000_000 && absi(u.x as int * (s as int)) <= 1_000_000 && absi(
            u.z as int * (c as int),
        ) <= 1_000_000) by (nonlinear_arith)
            requires
                absi(u.x as int) <= 1000,
                absi(u.z as int) <= 1000,
                absi(c as int) <= 1000,
                absi(s as int) <= 1000,
                absi(u.x as int * (c as int)) == absi(u.x as int) * absi(c as int),
                absi(u.z as int * (s as int)) == absi(u.z as int) * absi(s as int),
                absi(u.x as int * (s as int)) == absi(u.x as int) * absi(s as int),
                absi(u.z as int * (c as int)) == absi(u.z as int) * absi(c as int),
        ;
        lemma_rotation_norm(u.x as int, u.z as int, s as int, c as int);
    }
    let p: i64 = tdiv_e(u.x * c + u.z * s, SCALE);
    let q: i64 = tdiv_e(u.x * s - u.z * c, SCALE);
    let rx: i64 = -p;
    let rz: i64 = q;
    proof {
        if movement.x == 0 && movement.y == 0 {
            assert(u.x as int * (c as int) == 0 && u.z as int * (s as int) == 0 && u.x as int * (
            s as int) == 0 && u.z as int * (c as int) == 0) by (nonlinear_arith)
                requires
                    u.x as int == 0,
                    u.z as int == 0,
            ;
            lemma_div_of0(1000);
            assert(p as int == 0 && q as int == 0);
        }
        lemma_scale_norm(rx as int, rz as int, character.lateral_speed as int);
        lemma_tdiv_mag(rx as int * (character.lateral_speed as int), 1000);
        lemma_tdiv_mag(rz as int * (character.lateral_speed as int), 1000);
        lemma_abs_mul(rx as int, character.lateral_speed as int);
        lemma_abs_mul(rz as int, character.lateral_speed as int);
        lemma_abs_mul(rx as int, rx as int);
        lemma_abs_mul(rz as int, rz as int);
        assert(rx as int * (rx as int) >= 0 && rz as int * (rz as int) >= 0) by (nonlinear_arith);
        assert(absi(rx as int) <= 1000 && absi(rz as int) <= 1000) by (nonlinear_arith)
            requires
                rx as int * (rx as int) + rz as int * (rz as int) <= 1_000_000,
                absi(rx as int) * absi(rx as int) == rx as int * (rx as int),
                absi(rz as int) * absi(rz as int) == rz as int * (rz as int),
                absi(rx as int) >= 0,
                absi(rz as int) >= 0,
        ;
        assert(absi(rx as int) * (character.lateral_speed as int) <= 1000 * 1_000_000)
            by (nonlinear_arith)
            requires
                absi(rx as int) <= 1000,
                0 <= character.lateral_speed as int <= 1_000_000,
                absi(rx as int) >= 0,
        ;
        assert(absi(rz as int) * (character.lateral_speed as int) <= 1000 * 1_000_000)
            by (nonlinear_arith)
            requires
                absi(rz as int) <= 1000,
                0 <= character.lateral_speed as int <= 1_000_000,
                absi(rz as int) >= 0,
        ;
    }
    let tx: i64 = fmul(rx, character.lateral_speed);
    let tz: i64 = fmul(rz, character.lateral_speed);
    proof {
        if movement.x == 0 && movement.y == 0 {
            assert(rx as int * (character.lateral_speed as int) == 0 && rz as int * (
            character.lateral_speed as int) == 0) by (nonlinear_arith)
                requires
                    rx as int == 0,
                    rz as int == 0,
            ;
            lemma_div_of0(1000);
            assert(tx as int == 0 && tz as int == 0);
        }
        assert(absi(tx as int) <= character.lateral_speed as int) by (nonlinear_arith)
            requires
                absi(tx as int) * 1000 <= absi(rx as int) * (character.lateral_speed as int),
                absi(rx as int) <= 1000,
                character.lateral_speed as int >= 0,
                absi(tx as int) >= 0,
                absi(rx as int) >= 0,
        ;
        assert(absi(tz as int) <= character.lateral_speed as int) by (nonlinear_arith)
            requires
                absi(tz as int) * 1000 <= absi(rz as int) * (character.lateral_speed as int),
                absi(rz as int) <= 1000,
                character.lateral_speed as int >= 0,
                absi(tz as int) >= 0,
                absi(rz as int) >= 0,
        ;
    }
    Vec3Fx { x: tx, y: 0, z: tz }
}

} // verus!
