//! The input resolver: raw key state becomes directional and jump intents,
//! and the jump impulse curve for held jumps.

use vstd::prelude::*;
use vstd::arithmetic::div_mod::{lemma_div_is_ordered, lemma_div_by_multiple};
use vstd::arithmetic::mul::lemma_mul_inequality;
use crate::units::{
    FIXED_ONE, PLAYER_WALK_ACCEL, PLAYER_JUMP_ACCEL, JUMP_MAX_DURATION_MS, JUMP_FALLOFF_EXPONENT,
    COYOTE_TIME_MS,
};
use crate::vec2::{Vec2, sat64, sat_add64};
use crate::actor::{Actor, ActorClass, PlayerState, CoyoteTimer};

verus! {

/// The raw input snapshot read once per tick for the player.
#[derive(Clone, Copy, PartialEq, Eq, Structural, Debug)]
pub struct RawInput {
    pub left: bool,
    pub right: bool,
    /// Jump was first pressed this tick (edge trigger).
    pub jump_pressed: bool,
    /// Jump is down this tick (level trigger).
    pub jump_held: bool,
}

impl RawInput {
    /// No key down.
    pub fn idle() -> (r: RawInput)
        ensures
            r == (RawInput { left: false, right: false, jump_pressed: false, jump_held: false }),
    {
        RawInput { left: false, right: false, jump_pressed: false, jump_held: false }
    }
}

/// Net horizontal intent: opposite keys cancel by signed subtraction.
pub open spec fn spec_horizontal_intent(input: RawInput) -> int {
    (if input.right { 1int } else { 0int }) - (if input.left { 1int } else { 0int })
}

/// See [`spec_horizontal_intent`]; always -1, 0 or +1.
pub fn horizontal_intent(input: RawInput) -> (r: i64)
    ensures
        r == spec_horizontal_intent(input),
        -1 <= r <= 1,
{
    let right: i64 = if input.right { 1 } else { 0 };
    let left: i64 = if input.left { 1 } else { 0 };
    right - left
}

/// `f` scaled to FIXED_ONE, raised to the `n`-th power, rescaled after each
/// multiplication so intermediate values stay within one.
pub open spec fn pow_frac(f: int, n: nat) -> int
    decreases n,
{
    if n == 0 {
        FIXED_ONE as int
    } else {
        pow_frac(f, (n - 1) as nat) * f / (FIXED_ONE as int)
    }
}

/// Vertical acceleration contributed by a jump held for `elapsed_ms`:
/// the full impulse scaled by `(remaining / max_duration) ^ falloff`,
/// decaying smoothly to exactly zero at the maximum duration.
pub open spec fn spec_jump_hold_accel(elapsed_ms: int) -> int {
    if 0 <= elapsed_ms < JUMP_MAX_DURATION_MS {
        let f = (JUMP_MAX_DURATION_MS - elapsed_ms) * (FIXED_ONE as int) / (JUMP_MAX_DURATION_MS as int);
        (PLAYER_JUMP_ACCEL as int) * pow_frac(f, JUMP_FALLOFF_EXPONENT as nat) / (FIXED_ONE as int)
    } else {
        0
    }
}

/// See [`spec_jump_hold_accel`].
pub fn jump_hold_accel(elapsed_ms: u64) -> (r: i64)
    ensures
        r == spec_jump_hold_accel(elapsed_ms as int),
        0 <= r <= PLAYER_JUMP_ACCEL,
{
    if elapsed_ms >= JUMP_MAX_DURATION_MS {
        return 0;
    }
    let f: u64 = (JUMP_MAX_DURATION_MS - elapsed_ms) * (FIXED_ONE as u64) / JUMP_MAX_DURATION_MS;
    proof {
        assert(f <= FIXED_ONE) by {
            lemma_mul_inequality(
                JUMP_MAX_DURATION_MS - elapsed_ms,
                JUMP_MAX_DURATION_MS as int,
                FIXED_ONE as int,
            );
            lemma_div_is_ordered(
                (JUMP_MAX_DURATION_MS - elapsed_ms) * (FIXED_ONE as int),
                (JUMP_MAX_DURATION_MS as int) * (FIXED_ONE as int),
                JUMP_MAX_DURATION_MS as int,
            );
            lemma_div_by_multiple(FIXED_ONE as int, JUMP_MAX_DURATION_MS as int);
        }
    }
    let mut acc: u64 = FIXED_ONE as u64;
    let mut i: u64 = 0;
    while i < JUMP_FALLOFF_EXPONENT
        invariant
            0 <= i <= JUMP_FALLOFF_EXPONENT,
            f <= FIXED_ONE,
            0 <= acc <= FIXED_ONE,
            acc == pow_frac(f as int, i as nat),
        decreases JUMP_FALLOFF_EXPONENT - i,
    {
        proof {
            assert(acc * f <= FIXED_ONE * FIXED_ONE) by {
                lemma_mul_inequality(acc as int, FIXED_ONE as int, f as int);
                lemma_mul_inequality(f as int, FIXED_ONE as int, FIXED_ONE as int);
            }
            assert(acc * f / (FIXED_ONE as int) <= acc) by {
                lemma_mul_inequality(f as int, FIXED_ONE as int, acc as int);
                assert(acc * f == f * acc) by (nonlinear_arith);
                lemma_div_is_ordered(acc * f, acc * (FIXED_ONE as int), FIXED_ONE as int);
                lemma_div_by_multiple(acc as int, FIXED_ONE as int);
            }
            assert(pow_frac(f as int, (i + 1) as nat) == pow_frac(f as int, i as nat) * f / (
            FIXED_ONE as int));
        }
        acc = acc * f / (FIXED_ONE as u64);
        i = i + 1;
    }
    let scaled: u64 = (PLAYER_JUMP_ACCEL as u64) * acc / (FIXED_ONE as u64);
    proof {
        assert(scaled <= PLAYER_JUMP_ACCEL) by {
            lemma_mul_inequality(acc as int, FIXED_ONE as int, PLAYER_JUMP_ACCEL as int);
            assert((PLAYER_JUMP_ACCEL as int) * acc == acc * (PLAYER_JUMP_ACCEL as int))
                by (nonlinear_arith);
            lemma_div_is_ordered(
                (PLAYER_JUMP_ACCEL as int) * acc,
                (PLAYER_JUMP_ACCEL as int) * (FIXED_ONE as int),
                FIXED_ONE as int,
            );
            lemma_div_by_multiple(PLAYER_JUMP_ACCEL as int, FIXED_ONE as int);
        }
    }
    scaled as i64
}

/// What the resolver leaves behind for one player actor: ticked or reset
/// coyote timer, jump bookkeeping, and intents written into acceleration.
pub open spec fn spec_resolve_input(
    a: Actor,
    grounded: bool,
    input: RawInput,
    now_ms: u64,
    dt_ms: u64,
) -> Actor {
    match a.class {
        ActorClass::Player(p) => {
            let coyote = if grounded {
                CoyoteTimer { elapsed_ms: 0 }
            } else {
                p.coyote.spec_advance(dt_ms)
            };
            let jump_new = input.jump_pressed && !coyote.spec_finished();
            let jump_start = if jump_new {
                now_ms
            } else {
                p.jump_start_ms
            };
            let y_axis = if jump_new {
                PLAYER_JUMP_ACCEL as int
            } else if input.jump_held && p.jump_start_ms <= now_ms && now_ms - p.jump_start_ms
                < JUMP_MAX_DURATION_MS {
                spec_jump_hold_accel(now_ms - p.jump_start_ms)
            } else {
                0
            };
            let acc_x = sat64(a.acc.x + spec_horizontal_intent(input) * PLAYER_WALK_ACCEL);
            if y_axis != 0 {
                let vel_y = if a.vel.y < 0 && !coyote.spec_finished() {
                    0int
                } else {
                    a.vel.y as int
                };
                Actor {
                    class: ActorClass::Player(
                        PlayerState {
                            jump_start_ms: jump_start,
                            coyote: CoyoteTimer { elapsed_ms: COYOTE_TIME_MS },
                        },
                    ),
                    vel: Vec2 { x: a.vel.x, y: vel_y as i64 },
                    acc: Vec2 { x: acc_x as i64, y: y_axis as i64 },
                    ..a
                }
            } else {
                Actor {
                    class: ActorClass::Player(PlayerState { jump_start_ms: jump_start, coyote }),
                    vel: a.vel,
                    acc: Vec2 { x: acc_x as i64, y: 0i64 },
                    ..a
                }
            }
        },
        _ => a,
    }
}

/// Runs the input resolver for one actor.  Only player actors read input;
/// everything else is returned unchanged.
pub fn resolve_input(
    a: Actor,
    grounded: bool,
    input: RawInput,
    now_ms: u64,
    dt_ms: u64,
) -> (r: Actor)
    requires
        a.wf(),
    ensures
        r == spec_resolve_input(a, grounded, input, now_ms, dt_ms),
        r.wf(),
{
    match a.class {
        ActorClass::Player(p) => {
            let coyote = if grounded {
                CoyoteTimer::reset()
            } else {
                p.coyote.advance(dt_ms)
            };
            let jump_new = input.jump_pressed && !coyote.finished();
            let mut jump_start = p.jump_start_ms;
            let y_axis: i64;
            if jump_new {
                jump_start = now_ms;
                y_axis = PLAYER_JUMP_ACCEL;
            } else if input.jump_held && p.jump_start_ms <= now_ms && now_ms - p.jump_start_ms
                < JUMP_MAX_DURATION_MS {
                y_axis = jump_hold_accel(now_ms - p.jump_start_ms);
            } else {
                y_axis = 0;
            }
            let intent = horizontal_intent(input);
            let acc_x = sat_add64(a.acc.x, intent * PLAYER_WALK_ACCEL);
            if y_axis != 0 {
                let vel_y = if a.vel.y < 0 && !coyote.finished() {
                    0
                } else {
                    a.vel.y
                };
                Actor {
                    class: ActorClass::Player(
                        PlayerState { jump_start_ms: jump_start, coyote: CoyoteTimer::exhaust() },
                    ),
                    vel: Vec2 { x: a.vel.x, y: vel_y },
                    acc: Vec2 { x: acc_x, y: y_axis },
                    ..a
                }
            } else {
                Actor {
                    class: ActorClass::Player(PlayerState { jump_start_ms: jump_start, coyote }),
                    vel: a.vel,
                    acc: Vec2 { x: acc_x, y: 0 },
                    ..a
                }
            }
        },
        _ => a,
    }
}

} // verus!
