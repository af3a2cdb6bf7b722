//! Movement core of a third-person character controller: an orbiting
//! follow-camera coupled to a character-velocity controller, both running
//! once per simulation tick around an external physics integrator.
//!
//! All quantities are fixed-point scalars in thousandths of a unit
//! (see `fixed`), so every update rule is stated and proved exactly.

pub mod fixed;
pub mod isqrt;
pub mod trig;
pub mod vec3;
pub mod input;
pub mod character;
pub mod camera;
pub mod world;
