use orbit_core::camera::MainCameraState;
use orbit_core::character::{target_velocity, Character};
use orbit_core::input::{CursorMode, CursorState, InputSnapshot};
use orbit_core::vec3::{Vec2Fx, Vec3Fx};
use orbit_core::world::{apply_physics, camera_following, tick, World};

fn neutral() -> InputSnapshot {
    InputSnapshot::neutral()
}

#[test]
fn camera_state_defaults() {
    let s = MainCameraState::default();
    assert_eq!(s.focus, None);
    assert_eq!(s.focus_speed, 5_000);
    assert_eq!(s.distance, 5_000);
    assert_eq!(s.max_distance, 10_000);
    assert_eq!(s.min_distance, 1_000);
    assert_eq!(s.pitch, 0);
    assert_eq!(s.yaw(), 0);
    assert_eq!(s.pan_sensitivity, Vec2Fx { x: 300, y: 100 });
    assert_eq!(s.zoom_sensitivity, 10_000);
}

#[test]
fn character_defaults_and_height() {
    let c = Character::default();
    assert_eq!(c.lateral_speed, 10_000);
    assert_eq!(c.lateral_acceleration, 10_000);
    assert_eq!(c.rotation_speed, 10_000);
    assert_eq!(c.height(), 1_800);
}

#[test]
fn pitch_clamps_at_one_radian() {
    let mut s = MainCameraState::default();
    // A full second of a hard upward pan: raw delta would be 100 radians.
    s.apply_pan_zoom(Vec2Fx { x: 0, y: 1_000_000 }, 0, 1_000);
    assert_eq!(s.pitch, 1_000);
    s.apply_pan_zoom(Vec2Fx { x: 0, y: -1_000_000 }, 0, 1_000);
    s.apply_pan_zoom(Vec2Fx { x: 0, y: -1_000_000 }, 0, 1_000);
    assert_eq!(s.pitch, -1_000);
}

#[test]
fn zoom_overshoot_clamps_to_min_distance() {
    // zoom = 1, gain = 10, dt = 0.1 s, distance = 5: factor 1 - 1*10*0.1
    // is exactly zero, so the raw update lands at 0 and the clamp pulls
    // it back to min_distance = 1.
    let mut s = MainCameraState::default();
    s.apply_pan_zoom(Vec2Fx { x: 0, y: 0 }, 1_000, 100);
    assert_eq!(s.distance, 1_000);
}

#[test]
fn zoom_out_clamps_to_max_distance() {
    let mut s = MainCameraState::default();
    s.apply_pan_zoom(Vec2Fx { x: 0, y: 0 }, -1_000, 1_000);
    assert_eq!(s.distance, 10_000);
}

#[test]
fn yaw_pan_moves_and_wraps() {
    let mut s = MainCameraState::default();
    s.apply_pan_zoom(Vec2Fx { x: 1_000, y: 0 }, 0, 100);
    assert_eq!(s.yaw(), -30);
    let mut t = MainCameraState::default();
    // One hard second of panning left: 300 milliradians of raw travel
    // per millis-scale, wrapped back into the principal range.
    t.apply_pan_zoom(Vec2Fx { x: -1_000_000, y: 0 }, 0, 1_000);
    assert_eq!(t.yaw(), -1_632);
    assert!(-3_142 < t.yaw() && t.yaw() <= 3_142);
}

#[test]
fn forward_move_faces_away_from_camera() {
    // Move (0, 1) under yaw 0: the body faces half a turn around Y, so
    // the target velocity is exactly (0, 0, -lateral_speed).
    let c = Character::default();
    let tv = target_velocity(&c, 0, Vec2Fx { x: 0, y: 1_000 });
    assert_eq!(tv, Vec3Fx { x: 0, y: 0, z: -10_000 });
}

#[test]
fn zero_move_gives_zero_target() {
    let c = Character::default();
    for yaw in [0i64, 700, -1_571, 3_000] {
        let tv = target_velocity(&c, yaw, Vec2Fx { x: 0, y: 0 });
        assert_eq!(tv, Vec3Fx { x: 0, y: 0, z: 0 });
    }
}

#[test]
fn diagonal_move_stays_under_speed_limit() {
    let c = Character::default();
    let tv = target_velocity(&c, 0, Vec2Fx { x: 1_000, y: 1_000 });
    assert_eq!(tv, Vec3Fx { x: -7_060, y: 0, z: -7_060 });
    assert!(tv.x * tv.x + tv.z * tv.z <= 10_000i64 * 10_000);
}

#[test]
fn unbound_focus_is_a_noop() {
    let mut w = World::new();
    w.camera_state.focus = None;
    let before_state = w.camera_state;
    let before_camera = w.camera;
    let before_bodies = w.bodies.clone();
    let input = InputSnapshot {
        movement: Vec2Fx { x: 1_000, y: 1_000 },
        pan_camera: Vec2Fx { x: 500, y: -500 },
        zoom: 250,
        escape_just_pressed: false,
    };
    tick(&mut w, &input, 100);
    assert_eq!(w.camera_state, before_state);
    assert_eq!(w.camera, before_camera);
    assert_eq!(w.bodies, before_bodies);
}

#[test]
fn invalid_focus_handle_is_a_noop() {
    let mut w = World::new();
    w.camera_state.focus = Some(7);
    let before_state = w.camera_state;
    let before_bodies = w.bodies.clone();
    let input = InputSnapshot {
        movement: Vec2Fx { x: 1_000, y: 0 },
        pan_camera: Vec2Fx { x: 100, y: 100 },
        zoom: 100,
        escape_just_pressed: false,
    };
    tick(&mut w, &input, 100);
    assert_eq!(w.camera_state, before_state);
    assert_eq!(w.bodies, before_bodies);
}

#[test]
fn camera_pose_for_origin_focus() {
    // Focus at the origin, yaw 0, pitch 0, distance 5, height 1.8: the
    // camera aims at (0, 1.8, 0) and its target position is (0, 1.8, 5).
    let mut w = World::new();
    let mut entry = w.bodies[0];
    entry.body.position = Vec3Fx { x: 0, y: 0, z: 0 };
    w.bodies[0] = entry;
    // focus_speed * dt == 1: the ease covers the whole gap this frame.
    camera_following(&mut w, Vec2Fx { x: 0, y: 0 }, 0, 200);
    assert_eq!(w.camera.look_target, Vec3Fx { x: 0, y: 1_800, z: 0 });
    assert_eq!(w.camera.position, Vec3Fx { x: 0, y: 1_800, z: 5_000 });
}

#[test]
fn zero_input_ticks_converge_without_overshoot() {
    let mut w = World::new();
    let state0 = w.camera_state;
    // Head is at (0, 1000 + 1800, 0); the orbit target is 5 units behind.
    let target = Vec3Fx { x: 0, y: 2_800, z: 5_000 };
    tick(&mut w, &neutral(), 100);
    assert_eq!(w.camera_state, state0);
    assert_eq!(w.camera.position, Vec3Fx { x: 0, y: 1_400, z: 2_500 });
    tick(&mut w, &neutral(), 100);
    assert_eq!(w.camera.position, Vec3Fx { x: 0, y: 2_100, z: 3_750 });
    let mut gap = (target.y - w.camera.position.y).abs() + (target.z - w.camera.position.z).abs();
    for _ in 0..20 {
        tick(&mut w, &neutral(), 100);
        let g = (target.y - w.camera.position.y).abs() + (target.z - w.camera.position.z).abs();
        assert!(g <= gap, "camera moved away from its target");
        gap = g;
        assert_eq!(w.camera_state, state0);
        assert_eq!(w.bodies[0].body.linear_velocity, Vec3Fx { x: 0, y: 0, z: 0 });
    }
}

#[test]
fn velocity_eases_to_target_and_body_moves() {
    let mut w = World::new();
    let input = InputSnapshot {
        movement: Vec2Fx { x: 0, y: 1_000 },
        pan_camera: Vec2Fx { x: 0, y: 0 },
        zoom: 0,
        escape_just_pressed: false,
    };
    // acceleration * dt == 1: the velocity reaches the target in one step.
    tick(&mut w, &input, 100);
    assert_eq!(w.bodies[0].body.linear_velocity, Vec3Fx { x: 0, y: 0, z: -10_000 });
    assert_eq!(w.bodies[0].body.position, Vec3Fx { x: 0, y: 1_000, z: -1_000 });
}

#[test]
fn partial_velocity_step_lands_between() {
    let mut w = World::new();
    let input = InputSnapshot {
        movement: Vec2Fx { x: 0, y: 1_000 },
        pan_camera: Vec2Fx { x: 0, y: 0 },
        zoom: 0,
        escape_just_pressed: false,
    };
    apply_physics(&mut w, input.movement, 50);
    // acceleration * dt == 0.5: half the gap to (0, 0, -10).
    assert_eq!(w.bodies[0].body.linear_velocity, Vec3Fx { x: 0, y: 0, z: -5_000 });
}

#[test]
fn vertical_velocity_is_left_to_the_physics_engine() {
    let mut w = World::new();
    let mut entry = w.bodies[0];
    entry.body.linear_velocity = Vec3Fx { x: 0, y: -4_000, z: 0 };
    w.bodies[0] = entry;
    apply_physics(&mut w, Vec2Fx { x: 0, y: 1_000 }, 100);
    assert_eq!(w.bodies[0].body.linear_velocity.y, -4_000);
}

#[test]
fn cursor_toggle_cycle() {
    let s0 = CursorState::on_setup();
    assert_eq!(s0.mode, CursorMode::Confined);
    assert!(!s0.visible);
    let s1 = s0.after_escape(true);
    assert_eq!(s1.mode, CursorMode::Free);
    assert!(s1.visible);
    let s2 = s1.after_escape(true);
    assert_eq!(s2, s0);
    let s3 = s2.after_escape(false);
    assert_eq!(s3, s2);
}

#[test]
fn neutral_input_is_all_zero() {
    let i = neutral();
    assert_eq!(i.movement, Vec2Fx { x: 0, y: 0 });
    assert_eq!(i.pan_camera, Vec2Fx { x: 0, y: 0 });
    assert_eq!(i.zoom, 0);
    assert!(!i.escape_just_pressed);
}

#[test]
fn world_setup_binds_focus_to_character() {
    let w = World::new();
    assert_eq!(w.camera_state.focus, Some(0));
    assert_eq!(w.bodies.len(), 1);
    assert_eq!(w.bodies[0].body.position, Vec3Fx { x: 0, y: 1_000, z: 0 });
}
