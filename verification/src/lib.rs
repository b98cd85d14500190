//! Kinematic actor movement core for a 2D platformer.
//!
//! The library implements the per-tick pipeline that turns an input snapshot
//! and a physics engine's contact reports into actor velocity updates and a
//! desired-translation vector handed back to that engine: gravity, friction,
//! jump impulses with coyote time, patrol thrust, kill/bounce collision
//! responses, per-class speed caps and a pause-gated commit stage.
//!
//! All quantities are fixed-point integers: lengths and speeds in milliunits
//! (one thousandth of a world unit), time in milliseconds.  The host engine
//! owns positions, collision detection and rendering; this crate owns the
//! motion bookkeeping between them.

pub mod units;
pub mod vec2;
pub mod actor;
pub mod contact;
pub mod input;
pub mod stages;
pub mod world;
pub mod laws;
