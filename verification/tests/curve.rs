//! Unit tests for the fixed-point arithmetic: jump decay curve, friction
//! division and saturating vector addition.

use kinematic_core::input::{jump_hold_accel, horizontal_intent, RawInput};
use kinematic_core::stages::friction64;
use kinematic_core::vec2::{sat_add64, Vec2};

#[test]
fn jump_curve_full_strength_at_start() {
    assert_eq!(jump_hold_accel(0), 400);
}

#[test]
fn jump_curve_steep_decay_quarter() {
    // remaining fraction 750/1000; twelve scaled multiplications truncate
    // 1000 -> 750 -> 562 -> 421 -> 315 -> 236 -> 177 -> 132 -> 99 -> 74
    // -> 55 -> 41 -> 30, and 400 * 30 / 1000 == 12.
    assert_eq!(jump_hold_accel(250), 12);
}

#[test]
fn jump_curve_half_duration_truncates_to_zero() {
    // (1/2)^12 of full strength is below one milliunit: exactly 0 in fixed
    // point, a small fraction of the 400 full impulse.
    assert_eq!(jump_hold_accel(500), 0);
}

#[test]
fn jump_curve_exhausted_at_max_duration() {
    assert_eq!(jump_hold_accel(1000), 0);
    assert_eq!(jump_hold_accel(1001), 0);
    assert_eq!(jump_hold_accel(u64::MAX), 0);
}

#[test]
fn friction_divides_magnitude_rounding_toward_zero() {
    assert_eq!(friction64(300), 250);
    assert_eq!(friction64(250), 208);
    assert_eq!(friction64(6), 5);
    assert_eq!(friction64(-6), -5);
    assert_eq!(friction64(1), 0);
    assert_eq!(friction64(-1), 0);
    assert_eq!(friction64(0), 0);
}

#[test]
fn friction_handles_extreme_speeds() {
    // floor((2^63 - 1) * 5 / 6) and -floor(2^63 * 5 / 6), computed independently
    assert_eq!(friction64(i64::MAX), 7686143364045646505);
    assert_eq!(friction64(i64::MIN), -7686143364045646506);
}

#[test]
fn saturating_addition_clips_at_the_rails() {
    assert_eq!(sat_add64(i64::MAX, 1), i64::MAX);
    assert_eq!(sat_add64(i64::MIN, -1), i64::MIN);
    assert_eq!(sat_add64(i64::MAX, -1), i64::MAX - 1);
    assert_eq!(sat_add64(40, 2), 42);
    let v = Vec2 { x: i64::MAX, y: -3 }.sat_add(Vec2 { x: 5, y: -4 });
    assert_eq!(v, Vec2 { x: i64::MAX, y: -7 });
}

#[test]
fn opposite_keys_cancel() {
    let both = RawInput { left: true, right: true, jump_pressed: false, jump_held: false };
    let left = RawInput { left: true, right: false, jump_pressed: false, jump_held: false };
    let right = RawInput { left: false, right: true, jump_pressed: false, jump_held: false };
    let none = RawInput::idle();
    assert_eq!(horizontal_intent(both), 0);
    assert_eq!(horizontal_intent(left), -1);
    assert_eq!(horizontal_intent(right), 1);
    assert_eq!(horizontal_intent(none), 0);
}
