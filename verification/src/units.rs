//! Fixed-point scales and the physical constants of the movement core.
//!
//! Lengths, velocities and accelerations are carried in milliunits: one
//! thousandth of a world unit per component.  Time is carried in
//! milliseconds.  Velocities are milliunits per tick, accelerations
//! milliunits per tick per tick.

use vstd::prelude::*;

verus! {

/// Milliunits in one world unit; also the scale of the per-mille fractions
/// used by the jump decay curve.
pub const FIXED_ONE: i64 = 1000;

/// Downward acceleration applied to airborne actors each tick (0.1 units).
pub const GRAVITY_ACCEL: i64 = 100;

/// Friction divides horizontal velocity by 6/5 (a coefficient of 1.2) every
/// tick; in fixed point that is a multiplication by FRICTION_NUM followed by
/// a division by FRICTION_DEN, rounding toward zero.
pub const FRICTION_NUM: i64 = 5;
/// See [`FRICTION_NUM`].
pub const FRICTION_DEN: i64 = 6;

/// Cap on the player's horizontal speed (0.3 units per tick).
pub const PLAYER_WALK_SPEED: i64 = 300;

/// Horizontal acceleration from one tick of directional input (0.05 units).
pub const PLAYER_WALK_ACCEL: i64 = 50;

/// Cap on an enemy's horizontal speed (0.05 units per tick).
pub const ENEMY_WALK_SPEED: i64 = 50;

/// Patrol thrust added to a mover enemy each tick (0.05 units).
pub const ENEMY_WALK_ACCEL: i64 = 50;

/// Vertical acceleration on the tick a jump starts (0.4 units).
pub const PLAYER_JUMP_ACCEL: i64 = 400;

/// A held jump keeps contributing vertical acceleration for this long.
pub const JUMP_MAX_DURATION_MS: u64 = 1000;

/// Exponent of the jump decay curve: the impulse while jump is held is
/// `PLAYER_JUMP_ACCEL * (remaining / JUMP_MAX_DURATION_MS) ^ JUMP_FALLOFF_EXPONENT`.
pub const JUMP_FALLOFF_EXPONENT: u64 = 12;

/// Grace window after leaving the ground during which a jump still starts.
pub const COYOTE_TIME_MS: u64 = 50;

/// Upward acceleration rewarded to the player for striking an enemy's
/// attack hitbox (0.4 units).
pub const BOUNCE_ACCEL: i64 = 400;

/// Actors whose vertical position falls below this plane are marked dead
/// (-25 units).
pub const DEATH_PLANE_Y: i64 = -25000;

/// A contact normal whose horizontal component lies strictly inside
/// (WALL_NORMAL_BAND_LO, WALL_NORMAL_BAND_HI) in magnitude counts as a full
/// wall normal; the physics engine's normals are not always unit-exact.
pub const WALL_NORMAL_BAND_LO: i64 = 900;
/// See [`WALL_NORMAL_BAND_LO`].
pub const WALL_NORMAL_BAND_HI: i64 = 1100;

} // verus!
