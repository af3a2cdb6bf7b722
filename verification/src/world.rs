//! The model world and the per-tick pipeline.
//!
//! One tick runs, in this order and by construction: character motion
//! (which reads the yaw as of the start of the frame), then the position
//! integration the external physics engine stands for, then the camera
//! follow step reading the post-integration focus transform.  An unbound
//! or invalid focus leaves both controllers as no-ops.

use vstd::prelude::*;
use vstd::pervasive::VecAdditionalExecFns;
use crate::camera::CameraTransform;
use crate::camera::MainCameraState;
use crate::camera::camera_state_wf;
use crate::camera::follow_pose;
use crate::camera::follow_pose_step;
use crate::camera::orbit_step;
use crate::character::Character;
use crate::character::character_wf;
use crate::character::target_velocity;
use crate::character::tv_x;
use crate::character::tv_z;
use crate::fixed::POS_LIMIT;
use crate::fixed::SCALE;
use crate::fixed::TUNE_LIMIT;
use crate::fixed::absi;
use crate::fixed::between_s;
use crate::fixed::clamp_fx;
use crate::fixed::clamp_s;
use crate::fixed::fmul;
use crate::fixed::fmul_s;
use crate::fixed::lemma_fmul_contracts;
use crate::fixed::lerp_fx;
use crate::fixed::lerp_s;
use crate::input::InputSnapshot;
use crate::input::input_in_range;
use crate::vec3::Vec2Fx;
use crate::vec3::Vec3Fx;
use crate::vec3::v3_in_range;

verus! {

/// Physics state of one rigid body, as the controllers see it.
#[derive(Clone, Copy, PartialEq, Eq, Structural, Debug)]
pub struct BodyState {
    pub position: Vec3Fx,
    pub linear_velocity: Vec3Fx,
    /// Read by no controller today; facing rotation is an inactive feature.
    pub angular_velocity: Vec3Fx,
}

/// One entry of the body arena: a controllable body with its tuning.
#[derive(Clone, Copy, PartialEq, Eq, Structural, Debug)]
pub struct CharacterBody {
    pub character: Character,
    pub body: BodyState,
}

/// The whole model world the pipeline advances each tick.
#[derive(Clone, Debug)]
pub struct World {
    pub camera_state: MainCameraState,
    pub camera: CameraTransform,
    pub bodies: Vec<CharacterBody>,
}

pub open spec fn body_wf(b: BodyState) -> bool {
    &&& absi(b.position.x as int) <= POS_LIMIT as int
    &&& absi(b.position.y as int) <= POS_LIMIT as int
    &&& absi(b.position.z as int) <= POS_LIMIT as int
    &&& absi(b.linear_velocity.x as int) <= TUNE_LIMIT as int
    &&& absi(b.linear_velocity.y as int) <= TUNE_LIMIT as int
    &&& absi(b.linear_velocity.z as int) <= TUNE_LIMIT as int
    &&& absi(b.angular_velocity.x as int) <= TUNE_LIMIT as int
    &&& absi(b.angular_velocity.y as int) <= TUNE_LIMIT as int
    &&& absi(b.angular_velocity.z as int) <= TUNE_LIMIT as int
}

pub open spec fn entry_wf(e: CharacterBody) -> bool {
    character_wf(e.character) && body_wf(e.body)
}

pub open spec fn world_wf(w: World) -> bool {
    &&& camera_state_wf(w.camera_state)
    &&& v3_in_range(w.camera.position)
    &&& v3_in_range(w.camera.look_target)
    &&& forall|k: int| 0 <= k < w.bodies@.len() ==> entry_wf(#[trigger] w.bodies@[k])
}

/// The focus handle names a live entry of the arena.
pub open spec fn focus_ok(w: World) -> bool {
    match w.camera_state.focus {
        Option::Some(i) => (i as int) < w.bodies@.len(),
        Option::None => false,
    }
}

/// Fraction of the velocity gap covered this frame: acceleration times
/// frame time, capped at one.
pub open spec fn accel_step(c: Character, dt: int) -> int {
    clamp_s(fmul_s(c.lateral_acceleration as int, dt), 0, SCALE as int)
}

/// The character motion write: planar velocity of the focused body eases
/// toward the target velocity; its vertical velocity, its angular
/// velocity and everything else in the world are untouched.
pub open spec fn motion_step(o: World, n: World, movement: Vec2Fx, dt: int) -> bool {
    &&& n.camera_state == o.camera_state
    &&& n.camera == o.camera
    &&& n.bodies@.len() == o.bodies@.len()
    &&& match o.camera_state.focus {
        Option::Some(i) => if (i as int) < o.bodies@.len() {
            let oe = o.bodies@[i as int];
            let ne = n.bodies@[i as int];
            let st = accel_step(oe.character, dt);
            &&& (forall|k: int|
                0 <= k < o.bodies@.len() && k != i as int ==> #[trigger] n.bodies@[k]
                    == o.bodies@[k])
            &&& ne.character == oe.character
            &&& ne.body.position == oe.body.position
            &&& ne.body.angular_velocity == oe.body.angular_velocity
            &&& ne.body.linear_velocity.y == oe.body.linear_velocity.y
            &&& ne.body.linear_velocity.x as int == lerp_s(
                oe.body.linear_velocity.x as int,
                tv_x(oe.character, o.camera_state.yaw as int, movement),
                st,
            )
            &&& ne.body.linear_velocity.z as int == lerp_s(
                oe.body.linear_velocity.z as int,
                tv_z(oe.character, o.camera_state.yaw as int, movement),
                st,
            )
            &&& between_s(
                oe.body.linear_velocity.x as int,
                tv_x(oe.character, o.camera_state.yaw as int, movement),
                ne.body.linear_velocity.x as int,
            )
            &&& between_s(
                oe.body.linear_velocity.z as int,
                tv_z(oe.character, o.camera_state.yaw as int, movement),
                ne.body.linear_velocity.z as int,
            )
        } else {
            n.bodies@ == o.bodies@
        },
        Option::None => n.bodies@ == o.bodies@,
    }
}

/// One integrated position component: advance by velocity times frame
/// time and saturate at the rim of the model world.
pub open spec fn integrate_pos(p: int, v: int, dt: int) -> int {
    clamp_s(p + fmul_s(v, dt), -POS_LIMIT as int, POS_LIMIT as int)
}

/// One body after the integration step: position advanced, all else kept.
pub open spec fn integrated_entry(o: CharacterBody, n: CharacterBody, dt: int) -> bool {
    &&& n.character == o.character
    &&& n.body.linear_velocity == o.body.linear_velocity
    &&& n.body.angular_velocity == o.body.angular_velocity
    &&& n.body.position.x as int == integrate_pos(
        o.body.position.x as int,
        o.body.linear_velocity.x as int,
        dt,
    )
    &&& n.body.position.y as int == integrate_pos(
        o.body.position.y as int,
        o.body.linear_velocity.y as int,
        dt,
    )
    &&& n.body.position.z as int == integrate_pos(
        o.body.position.z as int,
        o.body.linear_velocity.z as int,
        dt,
    )
}

/// The stand-in for the external physics engine: every body's transform
/// advances from its velocity; controllers and camera are untouched.
pub open spec fn physics_step(o: World, n: World, dt: int) -> bool {
    &&& n.camera_state == o.camera_state
    &&& n.camera == o.camera
    &&& n.bodies@.len() == o.bodies@.len()
    &&& forall|k: int|
        0 <= k < o.bodies@.len() ==> integrated_entry(o.bodies@[k], #[trigger] n.bodies@[k], dt)
}

/// The camera follow write: orbit state consumes pan and zoom, the pose
/// aims at the focus head; bodies are untouched.  An unbound focus leaves
/// the camera exactly as it was.
pub open spec fn follow_step(o: World, n: World, pan: Vec2Fx, zoom: int, dt: int) -> bool {
    &&& n.bodies@ == o.bodies@
    &&& match o.camera_state.focus {
        Option::Some(i) => if (i as int) < o.bodies@.len() {
            &&& orbit_step(o.camera_state, n.camera_state, pan, zoom, dt)
            &&& follow_pose_step(
                n.camera_state,
                o.camera,
                n.camera,
                o.bodies@[i as int].body.position,
                o.bodies@[i as int].character.height as int,
                dt,
            )
        } else {
            n.camera_state == o.camera_state && n.camera == o.camera
        },
        Option::None => n.camera_state == o.camera_state && n.camera == o.camera,
    }
}

impl World {
    /// Scene setup: one camera, one stock character spawned one unit up,
    /// and the camera focus bound to it at once.
    pub fn new() -> (w: World)
        ensures
            w.camera_state.focus == Option::<usize>::Some(0usize),
            w.camera_state.distance == 5_000,
            w.camera_state.yaw == 0 && w.camera_state.pitch == 0,
            w.bodies@.len() == 1,
            w.bodies@[0].character == (Character {
                lateral_speed: 10_000,
                lateral_acceleration: 10_000,
                rotation_speed: 10_000,
                height: 1_800,
            }),
            w.bodies@[0].body.position == (Vec3Fx { x: 0, y: 1_000, z: 0 }),
            w.bodies@[0].body.linear_velocity == (Vec3Fx { x: 0, y: 0, z: 0 }),
            w.bodies@[0].body.angular_velocity == (Vec3Fx { x: 0, y: 0, z: 0 }),
            w.camera.position == (Vec3Fx { x: 0, y: 0, z: 0 }),
            w.camera.look_target.x == 0 && w.camera.look_target.y == 0
                && w.camera.look_target.z == -1_000,
            world_wf(w),
            focus_ok(w),
    {
        let mut camera_state = MainCameraState::default();
        camera_state.focus = Some(0);
        let zero = Vec3Fx { x: 0, y: 0, z: 0 };
        let entry = CharacterBody {
            character: Character::default(),
            body: BodyState {
                position: Vec3Fx { x: 0, y: 1_000, z: 0 },
                linear_velocity: zero,
                angular_velocity: zero,
            },
        };
        let mut bodies: Vec<CharacterBody> = Vec::new();
        bodies.push(entry);
        let camera = CameraTransform {
            position: zero,
            look_target: Vec3Fx { x: 0, y: 0, z: -1_000 },
        };
        World { camera_state, camera, bodies }
    }
}

/// Character motion controller: ease the focused body's planar velocity
/// toward the camera-relative target velocity; a missing focus is a no-op.
pub fn apply_physics(w: &mut World, movement: Vec2Fx, dt: i64)
    requires
        world_wf(*old(w)),
        -TUNE_LIMIT <= movement.x <= TUNE_LIMIT,
        -TUNE_LIMIT <= movement.y <= TUNE_LIMIT,
        0 <= dt <= SCALE,
    ensures
        motion_step(*old(w), *final(w), movement, dt as int),
        world_wf(*final(w)),
        focus_ok(*final(w)) == focus_ok(*old(w)),
        !focus_ok(*old(w)) ==> *final(w) == *old(w),
{
    let focus = w.camera_state.focus;
    if let Some(i) = focus {
        if i < w.bodies.len() {
            let mut entry = w.bodies[i];
            let yaw = w.camera_state.yaw();
            let tv = target_velocity(&entry.character, yaw, movement);
            proof {
                lemma_fmul_contracts(entry.character.lateral_acceleration as int, dt as int);
            }
            let st = clamp_fx(fmul(entry.character.lateral_acceleration, dt), 0, SCALE);
            let nvx = lerp_fx(entry.body.linear_velocity.x, tv.x, st);
            let nvz = lerp_fx(entry.body.linear_velocity.z, tv.z, st);
            entry.body.linear_velocity.x = nvx;
            entry.body.linear_velocity.z = nvz;
            w.bodies.set(i, entry);
        }
    }
}

/// Position integration, standing for the external physics engine:
/// advance every body's transform from its velocity, saturating at the
/// rim of the model world.
pub fn integrate_bodies(w: &mut World, dt: i64)
    requires
        world_wf(*old(w)),
        0 <= dt <= SCALE,
    ensures
        physics_step(*old(w), *final(w), dt as int),
        world_wf(*final(w)),
        focus_ok(*final(w)) == focus_ok(*old(w)),
{
    let n = w.bodies.len();
    let mut j: usize = 0;
    while j < n
        invariant
            n == w.bodies@.len(),
            n == old(w).bodies@.len(),
            0 <= j <= n,
            w.camera_state == old(w).camera_state,
            w.camera == old(w).camera,
            world_wf(*old(w)),
            0 <= dt <= SCALE,
            forall|k: int|
                0 <= k < j ==> integrated_entry(
                    old(w).bodies@[k],
                    #[trigger] w.bodies@[k],
                    dt as int,
                ),
            forall|k: int| j <= k < n ==> #[trigger] w.bodies@[k] == old(w).bodies@[k],
        decreases n - j,
    {
        let mut entry = w.bodies[j];
        proof {
            assert(entry == old(w).bodies@[j as int]);
            lemma_fmul_contracts(entry.body.linear_velocity.x as int, dt as int);
            lemma_fmul_contracts(entry.body.linear_velocity.y as int, dt as int);
            lemma_fmul_contracts(entry.body.linear_velocity.z as int, dt as int);
        }
        let px = clamp_fx(
            entry.body.position.x + fmul(entry.body.linear_velocity.x, dt),
            -POS_LIMIT,
            POS_LIMIT,
        );
        let py = clamp_fx(
            entry.body.position.y + fmul(entry.body.linear_velocity.y, dt),
            -POS_LIMIT,
            POS_LIMIT,
        );
        let pz = clamp_fx(
            entry.body.position.z + fmul(entry.body.linear_velocity.z, dt),
            -POS_LIMIT,
            POS_LIMIT,
        );
        entry.body.position = Vec3Fx { x: px, y: py, z: pz };
        w.bodies.set(j, entry);
        j = j + 1;
    }
    proof {
        assert forall|k: int| 0 <= k < w.bodies@.len() implies entry_wf(#[trigger] w.bodies@[k]) by {
            assert(integrated_entry(old(w).bodies@[k], w.bodies@[k], dt as int));
            assert(entry_wf(old(w).bodies@[k]));
        }
    }
}

/// Camera orbit controller: consume pan and zoom, then write the camera
/// pose from the focus body's post-integration transform; a missing focus
/// is a no-op.
pub fn camera_following(w: &mut World, pan: Vec2Fx, zoom: i64, dt: i64)
    requires
        world_wf(*old(w)),
        -TUNE_LIMIT <= pan.x <= TUNE_LIMIT,
        -TUNE_LIMIT <= pan.y <= TUNE_LIMIT,
        -TUNE_LIMIT <= zoom <= TUNE_LIMIT,
        0 <= dt <= SCALE,
    ensures
        follow_step(*old(w), *final(w), pan, zoom as int, dt as int),
        world_wf(*final(w)),
        focus_ok(*final(w)) == focus_ok(*old(w)),
        !focus_ok(*old(w)) ==> *final(w) == *old(w),
{
    let focus = w.camera_state.focus;
    if let Some(i) = focus {
        if i < w.bodies.len() {
            let entry = w.bodies[i];
            w.camera_state.apply_pan_zoom(pan, zoom, dt);
            follow_pose(
                &w.camera_state,
                &mut w.camera,
                entry.body.position,
                entry.character.height(),
                dt,
            );
        }
    }
}

/// Zero-input stability: with zero pan, zoom and movement and a
/// stationary focused body, one tick leaves the orbit state and every
/// body exactly as they were, and the camera position lands between where
/// it stood and its orbit target — easing toward it, never past it.
pub proof fn lemma_zero_input_stability(
    o: World,
    m1: World,
    m2: World,
    n: World,
    fi: usize,
    dt: int,
)
    requires
        world_wf(o),
        o.camera_state.focus == Option::Some(fi),
        (fi as int) < o.bodies@.len(),
        0 <= dt <= SCALE as int,
        forall|k: int|
            0 <= k < o.bodies@.len() ==> (#[trigger] o.bodies@[k]).body.linear_velocity == (Vec3Fx {
                x: 0,
                y: 0,
                z: 0,
            }),
        motion_step(o, m1, Vec2Fx { x: 0, y: 0 }, dt),
        physics_step(m1, m2, dt),
        follow_step(m2, n, Vec2Fx { x: 0, y: 0 }, 0, dt),
    ensures
        n.camera_state == o.camera_state,
        n.bodies@ == o.bodies@,
        n.camera.look_target.x == o.bodies@[fi as int].body.position.x,
        n.camera.look_target.y as int == o.bodies@[fi as int].body.position.y
            + o.bodies@[fi as int].character.height,
        n.camera.look_target.z == o.bodies@[fi as int].body.position.z,
        between_s(
            o.camera.position.x as int,
            o.bodies@[fi as int].body.position.x + crate::camera::orbit_offset_x(
                o.camera_state.yaw as int,
                o.camera_state.pitch as int,
                o.camera_state.distance as int,
            ),
            n.camera.position.x as int,
        ),
        between_s(
            o.camera.position.y as int,
            o.bodies@[fi as int].body.position.y + o.bodies@[fi as int].character.height
                + crate::camera::orbit_offset_y(
                o.camera_state.pitch as int,
                o.camera_state.distance as int,
            ),
            n.camera.position.y as int,
        ),
        between_s(
            o.camera.position.z as int,
            o.bodies@[fi as int].body.position.z + crate::camera::orbit_offset_z(
                o.camera_state.yaw as int,
                o.camera_state.pitch as int,
                o.camera_state.distance as int,
            ),
            n.camera.position.z as int,
        ),
{
    let oe = o.bodies@[fi as int];
    crate::character::lemma_zero_move_zero_target(oe.character, o.camera_state.yaw as int);
    crate::fixed::lemma_fmul_zero(accel_step(oe.character, dt));
    assert(m1.bodies@[fi as int].body.linear_velocity.x == 0);
    assert(m1.bodies@[fi as int].body.linear_velocity.z == 0);
    assert forall|k: int| 0 <= k < o.bodies@.len() implies #[trigger] m1.bodies@[k]
        == o.bodies@[k] by {
        if k == fi as int {
            assert(m1.bodies@[k].body.linear_velocity == oe.body.linear_velocity);
        }
    }
    assert(m1.bodies@ =~= o.bodies@);
    crate::fixed::lemma_fmul_zero(dt);
    assert forall|k: int| 0 <= k < o.bodies@.len() implies #[trigger] m2.bodies@[k]
        == o.bodies@[k] by {
        assert(integrated_entry(m1.bodies@[k], m2.bodies@[k], dt));
        assert(entry_wf(o.bodies@[k]));
        assert(m2.bodies@[k].body.position == o.bodies@[k].body.position);
    }
    assert(m2.bodies@ =~= o.bodies@);
    crate::camera::lemma_zero_input_fixes_state(o.camera_state, dt);
    assert(n.camera_state == o.camera_state);
    assert(n.bodies@ =~= o.bodies@);
    let st = crate::camera::focus_step(n.camera_state, dt);
    crate::fixed::lemma_lerp_between(
        o.camera.position.x as int,
        oe.body.position.x + crate::camera::orbit_offset_x(
            o.camera_state.yaw as int,
            o.camera_state.pitch as int,
            o.camera_state.distance as int,
        ),
        st,
    );
    crate::fixed::lemma_lerp_between(
        o.camera.position.y as int,
        oe.body.position.y + oe.character.height + crate::camera::orbit_offset_y(
            o.camera_state.pitch as int,
            o.camera_state.distance as int,
        ),
        st,
    );
    crate::fixed::lemma_lerp_between(
        o.camera.position.z as int,
        oe.body.position.z + crate::camera::orbit_offset_z(
            o.camera_state.yaw as int,
            o.camera_state.pitch as int,
            o.camera_state.distance as int,
        ),
        st,
    );
}

/// One simulation tick with the required ordering built in: motion first
/// (reading the frame-start yaw), then integration, then the camera
/// follow reading the fresh transform.  With an unbound focus the whole
/// tick reduces to the bare integration step.
pub fn tick(w: &mut World, input: &InputSnapshot, dt: i64)
    requires
        world_wf(*old(w)),
        input_in_range(*input),
        0 <= dt <= SCALE,
    ensures
        exists|m1: World, m2: World|
            motion_step(*old(w), m1, input.movement, dt as int) && physics_step(m1, m2, dt as int)
                && follow_step(m2, *final(w), input.pan_camera, input.zoom as int, dt as int),
        world_wf(*final(w)),
        !focus_ok(*old(w)) ==> physics_step(*old(w), *final(w), dt as int),
{
    apply_physics(w, input.movement, dt);
    let ghost m1 = *w;
    integrate_bodies(w, dt);
    let ghost m2 = *w;
    camera_following(w, input.pan_camera, input.zoom, dt);
    proof {
        assert(motion_step(*old(w), m1, input.movement, dt as int) && physics_step(
            m1,
            m2,
            dt as int,
        ) && follow_step(m2, *w, input.pan_camera, input.zoom as int, dt as int));
    }
}

} // verus!
