//! Per-frame input to the movement core.
//!
//! The host samples its devices and hands the controllers one
//! `InputSnapshot` per tick; device-to-action mapping lives outside this
//! core.  The cursor-capture toggle, the one piece of input-side logic,
//! is modeled here so its behaviour is pinned down exactly.

use vstd::prelude::*;
use crate::fixed::TUNE_LIMIT;
use crate::vec3::Vec2Fx;

verus! {

/// The actions the movement core consumes.
#[derive(Clone, Copy, PartialEq, Eq, Structural, Debug)]
pub enum GeneralInput {
    Move,
    PanCamera,
    Zoom,
    Escape,
}

/// Normalized values of all actions, sampled once per tick.
#[derive(Clone, Copy, PartialEq, Eq, Structural, Debug)]
pub struct InputSnapshot {
    /// 2D movement intent (unit range per axis for digital sources).
    pub movement: Vec2Fx,
    /// 2D camera pan delta, device units per frame.
    pub pan_camera: Vec2Fx,
    /// Scalar zoom delta per frame.
    pub zoom: i64,
    /// Rising edge of the escape action this tick.
    pub escape_just_pressed: bool,
}

/// Per-frame input values stay within `TUNE_LIMIT` on every axis.
pub open spec fn input_in_range(i: InputSnapshot) -> bool {
    &&& -TUNE_LIMIT <= i.movement.x <= TUNE_LIMIT
    &&& -TUNE_LIMIT <= i.movement.y <= TUNE_LIMIT
    &&& -TUNE_LIMIT <= i.pan_camera.x <= TUNE_LIMIT
    &&& -TUNE_LIMIT <= i.pan_camera.y <= TUNE_LIMIT
    &&& -TUNE_LIMIT <= i.zoom <= TUNE_LIMIT
}

impl InputSnapshot {
    /// A tick with no device activity at all.
    pub fn neutral() -> (i: InputSnapshot)
        ensures
            i.movement.x == 0 && i.movement.y == 0,
            i.pan_camera.x == 0 && i.pan_camera.y == 0,
            i.zoom == 0,
            !i.escape_just_pressed,
            input_in_range(i),
    {
        InputSnapshot {
            movement: Vec2Fx { x: 0, y: 0 },
            pan_camera: Vec2Fx { x: 0, y: 0 },
            zoom: 0,
            escape_just_pressed: false,
        }
    }
}

/// Cursor capture mode of the host window.
#[derive(Clone, Copy, PartialEq, Eq, Structural, Debug)]
pub enum CursorMode {
    /// Pointer confined to the window and hidden: gameplay.
    Confined,
    /// Pointer released and visible: menus or focus lost.
    Free,
}

/// Cursor state the host window mirrors each tick.
#[derive(Clone, Copy, PartialEq, Eq, Structural, Debug)]
pub struct CursorState {
    pub mode: CursorMode,
    pub visible: bool,
}

impl CursorState {
    /// Startup state: pointer captured and hidden.
    pub fn on_setup() -> (s: CursorState)
        ensures
            s.mode == CursorMode::Confined,
            !s.visible,
    {
        CursorState { mode: CursorMode::Confined, visible: false }
    }

    /// The escape edge toggles between captured-hidden and free-visible;
    /// without the edge nothing changes.
    pub fn after_escape(self, escape_just_pressed: bool) -> (s: CursorState)
        ensures
            !escape_just_pressed ==> s == self,
            escape_just_pressed && self.mode == CursorMode::Confined ==> s == (CursorState {
                mode: CursorMode::Free,
                visible: true,
            }),
            escape_just_pressed && self.mode != CursorMode::Confined ==> s == (CursorState {
                mode: CursorMode::Confined,
                visible: false,
            }),
    {
        if escape_just_pressed {
            if self.mode == CursorMode::Confined {
                CursorState { mode: CursorMode::Free, visible: true }
            } else {
                CursorState { mode: CursorMode::Confined, visible: false }
            }
        } else {
            self
        }
    }
}

} // verus!
