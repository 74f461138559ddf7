//! A verified model of a first-person walking-simulator core: scene
//! bootstrap, mouse-look rotation, planar WASD movement and a scripted
//! parabolic jump arc.
//!
//! All quantities are fixed-point integers: lengths in micro-units
//! (one unit is 1_000_000) and angles in micro-radians.  A host runtime
//! owning the window, input polling and rendering drives the controllers
//! once per frame with plain values (pointer deltas, held keys, elapsed
//! micro-seconds) and reads the camera transform back.

pub mod fixed;
pub mod trig;
pub mod geom;
pub mod look;
pub mod motion;
pub mod jump;
pub mod scene;
