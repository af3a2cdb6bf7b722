//! Camera orbit controller.
//!
//! `MainCameraState` owns yaw, pitch and orbit distance.  A pan/zoom
//! update turns pointer deltas into new angles and distance — pitch and
//! distance are clamped, yaw is kept principal — and the follow step
//! places the camera behind the focus head and eases it toward that
//! target without ever overshooting it.

use vstd::prelude::*;
use crate::fixed::MAG_LIMIT;
use crate::fixed::POS_LIMIT;
use crate::fixed::SCALE;
use crate::fixed::TUNE_LIMIT;
use crate::fixed::absi;
use crate::fixed::between_s;
use crate::fixed::clamp_fx;
use crate::fixed::clamp_s;
use crate::fixed::fmul;
use crate::fixed::fmul_s;
use crate::fixed::in_range;
use crate::fixed::lemma_abs_mul;
use crate::fixed::lemma_fmul_contracts;
use crate::fixed::lemma_fmul_scale_identity;
use crate::fixed::lemma_fmul_zero;
use crate::fixed::lemma_tdiv_mag;
use crate::fixed::lerp_s;
use crate::trig::HALF_TURN;
use crate::trig::cos_fx;
use crate::trig::sin_fx;
use crate::trig::lemma_wrap_principal;
use crate::trig::sin_cos;
use crate::trig::wrap_angle;
use crate::trig::wrap_angle_e;
use crate::vec3::Vec2Fx;
use crate::vec3::Vec3Fx;
use crate::vec3::add3;
use crate::vec3::lerp3;
use crate::vec3::v3_in_range;

verus! {

/// Orbit state of the single main camera.
#[derive(Clone, Copy, PartialEq, Eq, Structural, Debug)]
pub struct MainCameraState {
    /// Handle of the tracked body in the world's arena; `None` is unbound.
    pub focus: Option<usize>,
    /// Interpolation rate of the camera position, fraction per second.
    pub focus_speed: i64,
    /// Current camera-to-focus distance.
    pub distance: i64,
    /// Upper clamp bound of the distance.
    pub max_distance: i64,
    /// Lower clamp bound of the distance.
    pub min_distance: i64,
    /// Vertical orbit angle, clamped to one radian either way.
    pub pitch: i64,
    /// Horizontal orbit angle, kept principal.
    pub yaw: i64,
    /// Per-axis pan gain.
    pub pan_sensitivity: Vec2Fx,
    /// Distance gain per scroll unit.
    pub zoom_sensitivity: i64,
}

pub open spec fn camera_state_wf(s: MainCameraState) -> bool {
    &&& 0 < s.min_distance <= s.max_distance <= TUNE_LIMIT
    &&& s.min_distance <= s.distance <= s.max_distance
    &&& -SCALE <= s.pitch <= SCALE
    &&& -HALF_TURN < s.yaw <= HALF_TURN
    &&& 0 <= s.focus_speed <= TUNE_LIMIT
    &&& 0 <= s.pan_sensitivity.x <= TUNE_LIMIT
    &&& 0 <= s.pan_sensitivity.y <= TUNE_LIMIT
    &&& 0 <= s.zoom_sensitivity <= TUNE_LIMIT
}

impl Default for MainCameraState {
    /// Stock tuning: unbound focus, 5 units of distance clamped to
    /// [1, 10], pan gains (0.3, 0.1), zoom gain 10, focus rate 5/s.
    fn default() -> (s: Self)
        ensures
            s == (MainCameraState {
                focus: Option::<usize>::None,
                focus_speed: 5_000,
                distance: 5_000,
                max_distance: 10_000,
                min_distance: 1_000,
                pitch: 0,
                yaw: 0,
                pan_sensitivity: Vec2Fx { x: 300, y: 100 },
                zoom_sensitivity: 10_000,
            }),
            camera_state_wf(s),
    {
        MainCameraState {
            focus: None,
            focus_speed: 5_000,
            distance: 5_000,
            max_distance: 10_000,
            min_distance: 1_000,
            pitch: 0,
            yaw: 0,
            pan_sensitivity: Vec2Fx { x: 300, y: 100 },
            zoom_sensitivity: 10_000,
        }
    }
}

/// Change a pan or zoom axis contributes over a frame: input times gain
/// times frame time.
pub open spec fn pan_delta(axis: int, sens: int, dt: int) -> int {
    fmul_s(fmul_s(axis, sens), dt)
}

/// Distance after the multiplicative zoom update and the clamp.  The
/// factor `1 - zoom * gain * dt` can overshoot (even invert) in one step;
/// the clamp corrects it immediately, as the update rule prescribes.
pub open spec fn zoomed_distance(s: MainCameraState, zoom: int, dt: int) -> int {
    clamp_s(
        fmul_s(s.distance as int, SCALE - pan_delta(zoom, s.zoom_sensitivity as int, dt)),
        s.min_distance as int,
        s.max_distance as int,
    )
}

/// One pan/zoom update of the orbit state; everything else is kept.
pub open spec fn orbit_step(
    o: MainCameraState,
    n: MainCameraState,
    pan: Vec2Fx,
    zoom: int,
    dt: int,
) -> bool {
    &&& n.yaw as int == wrap_angle(
        o.yaw - pan_delta(pan.x as int, o.pan_sensitivity.x as int, dt),
    )
    &&& n.pitch as int == clamp_s(
        o.pitch + pan_delta(pan.y as int, o.pan_sensitivity.y as int, dt),
        -SCALE as int,
        SCALE as int,
    )
    &&& n.distance as int == zoomed_distance(o, zoom, dt)
    &&& n.focus == o.focus
    &&& n.focus_speed == o.focus_speed
    &&& n.min_distance == o.min_distance
    &&& n.max_distance == o.max_distance
    &&& n.pan_sensitivity == o.pan_sensitivity
    &&& n.zoom_sensitivity == o.zoom_sensitivity
}

/// A pan-times-gain-times-time product of in-limit factors stays within
/// `MAG_LIMIT`.
proof fn lemma_pan_delta_bound(axis: int, sens: int, dt: int)
    requires
        absi(axis) <= TUNE_LIMIT as int,
        absi(sens) <= TUNE_LIMIT as int,
        0 <= dt <= SCALE as int,
    ensures
        absi(pan_delta(axis, sens, dt)) <= MAG_LIMIT as int,
        absi(fmul_s(axis, sens)) <= MAG_LIMIT as int,
{
    lemma_abs_mul(axis, sens);
    assert(absi(axis) * absi(sens) <= 1_000_000_000_000) by (nonlinear_arith)
        requires
            0 <= absi(axis) <= 1_000_000,
            0 <= absi(sens) <= 1_000_000,
    ;
    lemma_tdiv_mag(axis * sens, 1000);
    lemma_fmul_contracts(fmul_s(axis, sens), dt);
}

impl MainCameraState {
    /// Current horizontal orbit angle.
    pub fn yaw(&self) -> (y: i64)
        ensures
            y == self.yaw,
    {
        self.yaw
    }

    /// Consume a frame's pan and zoom deltas: yaw and pitch move by input
    /// times gain times frame time, the distance is scaled by
    /// `1 - zoom * gain * dt`; pitch and distance are clamped, yaw is
    /// wrapped to its principal value.
    pub fn apply_pan_zoom(&mut self, pan: Vec2Fx, zoom: i64, dt: i64)
        requires
            camera_state_wf(*old(self)),
            -TUNE_LIMIT <= pan.x <= TUNE_LIMIT,
            -TUNE_LIMIT <= pan.y <= TUNE_LIMIT,
            -TUNE_LIMIT <= zoom <= TUNE_LIMIT,
            0 <= dt <= SCALE,
        ensures
            orbit_step(*old(self), *final(self), pan, zoom as int, dt as int),
            camera_state_wf(*final(self)),
            -SCALE <= final(self).pitch <= SCALE,
            old(self).min_distance <= final(self).distance <= old(self).max_distance,
    {
        proof {
            lemma_pan_delta_bound(pan.x as int, self.pan_sensitivity.x as int, dt as int);
            lemma_pan_delta_bound(pan.y as int, self.pan_sensitivity.y as int, dt as int);
            lemma_pan_delta_bound(zoom as int, self.zoom_sensitivity as int, dt as int);
        }
        let dyaw: i64 = fmul(fmul(pan.x, self.pan_sensitivity.x), dt);
        let dpitch: i64 = fmul(fmul(pan.y, self.pan_sensitivity.y), dt);
        let dzoom: i64 = fmul(fmul(zoom, self.zoom_sensitivity), dt);
        self.yaw = wrap_angle_e(self.yaw - dyaw);
        self.pitch = clamp_fx(self.pitch + dpitch, -SCALE, SCALE);
        self.distance = clamp_fx(
            fmul(self.distance, SCALE - dzoom),
            self.min_distance,
            self.max_distance,
        );
    }
}

/// Pitch clamp law: one update from any well-formed state leaves the pitch
/// within one radian of horizontal; with well-formedness preserved by
/// every update, any sequence of pan inputs does too.
pub proof fn lemma_pitch_always_clamped(
    o: MainCameraState,
    n: MainCameraState,
    pan: Vec2Fx,
    zoom: int,
    dt: int,
)
    requires
        orbit_step(o, n, pan, zoom, dt),
    ensures
        -SCALE <= n.pitch <= SCALE,
{
}

/// Distance clamp law: one update from any well-formed state leaves the
/// distance within its bounds; with well-formedness preserved by every
/// update, any sequence of zoom inputs does too.
pub proof fn lemma_distance_always_clamped(
    o: MainCameraState,
    n: MainCameraState,
    pan: Vec2Fx,
    zoom: int,
    dt: int,
)
    requires
        camera_state_wf(o),
        orbit_step(o, n, pan, zoom, dt),
    ensures
        o.min_distance <= n.distance <= o.max_distance,
{
}

/// Clamp laws over whole input histories: along any chain of pan/zoom
/// updates from a well-formed start, every reached state is well-formed,
/// and after every update the pitch lies within one radian of horizontal
/// and the distance within its clamp bounds — for all sequences of pan
/// and zoom inputs.
pub proof fn lemma_orbit_chain_clamped(
    states: Seq<MainCameraState>,
    pans: Seq<Vec2Fx>,
    zooms: Seq<int>,
    dts: Seq<int>,
    k: int,
)
    requires
        states.len() == pans.len() + 1,
        zooms.len() == pans.len(),
        dts.len() == pans.len(),
        camera_state_wf(states[0]),
        forall|j: int|
            0 <= j < pans.len() ==> #[trigger] orbit_step(
                states[j],
                states[j + 1],
                pans[j],
                zooms[j],
                dts[j],
            ),
        0 <= k < states.len(),
    ensures
        camera_state_wf(states[k]),
        k > 0 ==> -SCALE <= states[k].pitch <= SCALE,
        k > 0 ==> states[k].min_distance <= states[k].distance <= states[k].max_distance,
    decreases k,
{
    if k > 0 {
        lemma_orbit_chain_clamped(states, pans, zooms, dts, k - 1);
        assert(orbit_step(states[k - 1], states[k - 1 + 1], pans[k - 1], zooms[k - 1], dts[k - 1]));
        crate::trig::lemma_wrap_angle_range(
            states[k - 1].yaw - pan_delta(
                pans[k - 1].x as int,
                states[k - 1].pan_sensitivity.x as int,
                dts[k - 1],
            ),
        );
    }
}

/// Zero pan and zero zoom leave yaw, pitch and distance exactly as they
/// were (no drift from the update formulas themselves).
pub proof fn lemma_zero_input_fixes_state(s: MainCameraState, dt: int)
    requires
        camera_state_wf(s),
        0 <= dt <= SCALE as int,
    ensures
        wrap_angle(s.yaw - pan_delta(0, s.pan_sensitivity.x as int, dt)) == s.yaw,
        clamp_s(
            s.pitch + pan_delta(0, s.pan_sensitivity.y as int, dt),
            -SCALE as int,
            SCALE as int,
        ) == s.pitch,
        zoomed_distance(s, 0, dt) == s.distance,
{
    lemma_fmul_zero(s.pan_sensitivity.x as int);
    lemma_fmul_zero(s.pan_sensitivity.y as int);
    lemma_fmul_zero(s.zoom_sensitivity as int);
    lemma_fmul_zero(dt);
    assert(pan_delta(0, s.pan_sensitivity.x as int, dt) == 0);
    assert(pan_delta(0, s.pan_sensitivity.y as int, dt) == 0);
    assert(pan_delta(0, s.zoom_sensitivity as int, dt) == 0);
    lemma_wrap_principal(s.yaw as int);
    lemma_fmul_scale_identity(s.distance as int);
}

/// Pose of the single camera entity: where it stands and what it looks at.
#[derive(Clone, Copy, PartialEq, Eq, Structural, Debug)]
pub struct CameraTransform {
    pub position: Vec3Fx,
    pub look_target: Vec3Fx,
}

/// X of the orbit offset: the vector from the focus head out to the
/// camera, built from yaw (about Y, applied first) and pitch (about X).
pub open spec fn orbit_offset_x(yaw: int, pitch: int, d: int) -> int {
    fmul_s(d, fmul_s(cos_fx(pitch), sin_fx(yaw)))
}

/// Y of the orbit offset.
pub open spec fn orbit_offset_y(pitch: int, d: int) -> int {
    -fmul_s(d, sin_fx(pitch))
}

/// Z of the orbit offset.
pub open spec fn orbit_offset_z(yaw: int, pitch: int, d: int) -> int {
    fmul_s(d, fmul_s(cos_fx(pitch), cos_fx(yaw)))
}

/// Fraction of the gap to the target the camera covers this frame,
/// capped at one so the ease never overshoots.
pub open spec fn focus_step(s: MainCameraState, dt: int) -> int {
    clamp_s(fmul_s(s.focus_speed as int, dt), 0, SCALE as int)
}

/// One camera pose write: the look target is the focus head, the position
/// eases toward head + offset by `focus_step`.
pub open spec fn follow_pose_step(
    s: MainCameraState,
    oc: CameraTransform,
    nc: CameraTransform,
    focus_pos: Vec3Fx,
    height: int,
    dt: int,
) -> bool {
    let hx = focus_pos.x as int;
    let hy = focus_pos.y + height;
    let hz = focus_pos.z as int;
    let st = focus_step(s, dt);
    &&& nc.look_target.x as int == hx
    &&& nc.look_target.y as int == hy
    &&& nc.look_target.z as int == hz
    &&& nc.position.x as int == lerp_s(
        oc.position.x as int,
        hx + orbit_offset_x(s.yaw as int, s.pitch as int, s.distance as int),
        st,
    )
    &&& nc.position.y as int == lerp_s(
        oc.position.y as int,
        hy + orbit_offset_y(s.pitch as int, s.distance as int),
        st,
    )
    &&& nc.position.z as int == lerp_s(
        oc.position.z as int,
        hz + orbit_offset_z(s.yaw as int, s.pitch as int, s.distance as int),
        st,
    )
}

/// Orbit offset from the focus head to the camera; each component is
/// bounded by the orbit distance.
pub fn orbit_offset(yaw: i64, pitch: i64, d: i64) -> (off: Vec3Fx)
    requires
        in_range(yaw as int),
        in_range(pitch as int),
        0 <= d <= TUNE_LIMIT,
    ensures
        off.x as int == orbit_offset_x(yaw as int, pitch as int, d as int),
        off.y as int == orbit_offset_y(pitch as int, d as int),
        off.z as int == orbit_offset_z(yaw as int, pitch as int, d as int),
        absi(off.x as int) <= d,
        absi(off.y as int) <= d,
        absi(off.z as int) <= d,
{
    let scy = sin_cos(yaw);
    let scp = sin_cos(pitch);
    proof {
        lemma_fmul_contracts(scp.1 as int, scy.0 as int);
        lemma_fmul_contracts(scp.1 as int, scy.1 as int);
        lemma_fmul_contracts(d as int, fmul_s(scp.1 as int, scy.0 as int));
        lemma_fmul_contracts(d as int, fmul_s(scp.1 as int, scy.1 as int));
        lemma_fmul_contracts(d as int, scp.0 as int);
    }
    let ox = fmul(d, fmul(scp.1, scy.0));
    let oy = -fmul(d, scp.0);
    let oz = fmul(d, fmul(scp.1, scy.1));
    Vec3Fx { x: ox, y: oy, z: oz }
}

/// Write the camera pose for this frame: aim at the focus head and ease
/// the position toward head + orbit offset, never overshooting it.
pub fn follow_pose(
    state: &MainCameraState,
    camera: &mut CameraTransform,
    focus_pos: Vec3Fx,
    height: i64,
    dt: i64,
)
    requires
        camera_state_wf(*state),
        v3_in_range(old(camera).position),
        absi(focus_pos.x as int) <= POS_LIMIT as int,
        absi(focus_pos.y as int) <= POS_LIMIT as int,
        absi(focus_pos.z as int) <= POS_LIMIT as int,
        0 <= height <= TUNE_LIMIT,
        0 <= dt <= SCALE,
    ensures
        follow_pose_step(*state, *old(camera), *final(camera), focus_pos, height as int, dt as int),
        v3_in_range(final(camera).position),
        v3_in_range(final(camera).look_target),
        between_s(
            old(camera).position.x as int,
            focus_pos.x + orbit_offset_x(state.yaw as int, state.pitch as int, state.distance as int),
            final(camera).position.x as int,
        ),
        between_s(
            old(camera).position.y as int,
            focus_pos.y + height + orbit_offset_y(state.pitch as int, state.distance as int),
            final(camera).position.y as int,
        ),
        between_s(
            old(camera).position.z as int,
            focus_pos.z + orbit_offset_z(state.yaw as int, state.pitch as int, state.distance as int),
            final(camera).position.z as int,
        ),
{
    let off = orbit_offset(state.yaw, state.pitch, state.distance);
    let head = Vec3Fx { x: focus_pos.x, y: focus_pos.y + height, z: focus_pos.z };
    let target = add3(head, off);
    proof {
        lemma_fmul_contracts(state.focus_speed as int, dt as int);
    }
    let st = clamp_fx(fmul(state.focus_speed, dt), 0, SCALE);
    camera.position = lerp3(camera.position, target, st);
    camera.look_target = head;
}

} // verus!
