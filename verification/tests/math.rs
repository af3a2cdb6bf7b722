use orbit_core::fixed::{clamp_fx, fmul, lerp_fx, tdiv_e};
use orbit_core::isqrt::{isqrt_ceil, isqrt_floor};
use orbit_core::trig::{sin_cos, wrap_angle_e};
use orbit_core::vec3::{normalize_or_zero, Vec3Fx};

#[test]
fn fmul_truncates_toward_zero() {
    assert_eq!(fmul(1_500, 1_500), 2_250);
    assert_eq!(fmul(-1_500, 1_500), -2_250);
    assert_eq!(fmul(999, 1), 0);
    assert_eq!(fmul(-999, 1), 0);
    assert_eq!(fmul(5_000, 1_000), 5_000);
}

#[test]
fn tdiv_truncates_toward_zero() {
    assert_eq!(tdiv_e(7, 2), 3);
    assert_eq!(tdiv_e(-7, 2), -3);
}

#[test]
fn clamp_behaves() {
    assert_eq!(clamp_fx(5, 1, 3), 3);
    assert_eq!(clamp_fx(0, 1, 3), 1);
    assert_eq!(clamp_fx(2, 1, 3), 2);
}

#[test]
fn lerp_endpoints_and_midpoint() {
    assert_eq!(lerp_fx(0, 1_000, 500), 500);
    assert_eq!(lerp_fx(0, 1_000, 1_000), 1_000);
    assert_eq!(lerp_fx(1_000, 0, 1_000), 0);
    assert_eq!(lerp_fx(200, 200, 700), 200);
}

#[test]
fn integer_square_roots() {
    assert_eq!(isqrt_floor(0), 0);
    assert_eq!(isqrt_floor(1_000_000), 1_000);
    assert_eq!(isqrt_floor(999_999), 999);
    assert_eq!(isqrt_ceil(0), 0);
    assert_eq!(isqrt_ceil(2), 2);
    assert_eq!(isqrt_ceil(1_000_000), 1_000);
    assert_eq!(isqrt_ceil(2_000_000), 1_415);
}

#[test]
fn sine_cosine_at_cardinal_angles() {
    assert_eq!(sin_cos(0), (0, 1_000));
    assert_eq!(sin_cos(1_571), (1_000, 0));
    assert_eq!(sin_cos(3_142), (0, -1_000));
    assert_eq!(sin_cos(-1_571), (-1_000, 0));
}

#[test]
fn wrap_angle_principal_range() {
    assert_eq!(wrap_angle_e(0), 0);
    assert_eq!(wrap_angle_e(6_284), 0);
    assert_eq!(wrap_angle_e(4_000), -2_284);
    assert_eq!(wrap_angle_e(-4_000), 2_284);
    assert_eq!(wrap_angle_e(3_142), 3_142);
}

#[test]
fn normalize_zero_gives_zero() {
    let z = normalize_or_zero(Vec3Fx { x: 0, y: 0, z: 0 });
    assert_eq!(z, Vec3Fx { x: 0, y: 0, z: 0 });
}

#[test]
fn normalize_exact_values() {
    let u = normalize_or_zero(Vec3Fx { x: 0, y: 0, z: 1_000 });
    assert_eq!(u, Vec3Fx { x: 0, y: 0, z: 1_000 });
    let v = normalize_or_zero(Vec3Fx { x: 3_000, y: 0, z: 4_000 });
    assert_eq!(v, Vec3Fx { x: 600, y: 0, z: 800 });
}

#[test]
fn normalize_never_exceeds_unit_length() {
    let samples = vec![
        Vec3Fx { x: 1, y: 0, z: 1 },
        Vec3Fx { x: 3, y: 0, z: 3 },
        Vec3Fx { x: 1_000, y: 0, z: 1_000 },
        Vec3Fx { x: 999, y: 0, z: -1 },
        Vec3Fx { x: -7, y: 0, z: 13 },
    ];
    for v in samples {
        let u = normalize_or_zero(v);
        let n2 = u.x * u.x + u.y * u.y + u.z * u.z;
        assert!(n2 <= 1_000_000, "normalized {:?} too long: {:?}", v, u);
    }
}
