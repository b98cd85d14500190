//! Per-actor logic of each pipeline stage: force integrators, collision
//! responses and the speed governor, as pure functions on one actor.
//!
//! Each stage has a spec function saying exactly what it leaves behind and
//! an executable twin proved equal to it.  The world-level pipeline in
//! [`crate::world`] lifts these over the actor arena in the fixed stage
//! order.

use vstd::prelude::*;
use crate::units::{
    GRAVITY_ACCEL, ENEMY_WALK_ACCEL, BOUNCE_ACCEL, DEATH_PLANE_Y,
    FRICTION_NUM, FRICTION_DEN, WALL_NORMAL_BAND_LO, WALL_NORMAL_BAND_HI,
};
use crate::vec2::{Vec2, sat64, sat_add64};
use crate::actor::{Actor, ActorClass, MoverState};
use crate::contact::{Contact, ContactOther, ContactReport, WallHit};

verus! {

// ---------------------------------------------------------------------------
// Acceleration reset

/// Acceleration is rebuilt from zero exactly once per tick, before any
/// integrator runs.
pub open spec fn spec_clear_acc(a: Actor) -> Actor {
    Actor { acc: Vec2 { x: 0i64, y: 0i64 }, ..a }
}

pub fn clear_acc(a: Actor) -> (r: Actor)
    ensures
        r == spec_clear_acc(a),
{
    Actor { acc: Vec2 { x: 0, y: 0 }, ..a }
}

// ---------------------------------------------------------------------------
// Gravity

/// Gravity pulls on airborne actors — for the player only once the coyote
/// window has elapsed, so it does not fight a jump impulse started within
/// the window.  A grounded actor still moving down has vertical velocity
/// and acceleration forced to exactly zero, preventing residual downward
/// creep from re-applying next tick.  Frozen entirely while paused.
pub open spec fn spec_gravity(a: Actor, grounded: bool, running: bool) -> Actor {
    if !running {
        a
    } else {
        let pulls = !grounded && (match a.class {
            ActorClass::Player(p) => p.coyote.spec_finished(),
            _ => true,
        });
        let acc_y = if pulls {
            sat64(a.acc.y - GRAVITY_ACCEL)
        } else {
            a.acc.y as int
        };
        if grounded && a.vel.y < 0 {
            Actor { vel: Vec2 { x: a.vel.x, y: 0i64 }, acc: Vec2 { x: a.acc.x, y: 0i64 }, ..a }
        } else {
            Actor { acc: Vec2 { x: a.acc.x, y: acc_y as i64 }, ..a }
        }
    }
}

pub fn gravity(a: Actor, grounded: bool, running: bool) -> (r: Actor)
    ensures
        r == spec_gravity(a, grounded, running),
{
    if !running {
        return a;
    }
    let pulls = !grounded && (match a.class {
        ActorClass::Player(p) => p.coyote.finished(),
        _ => true,
    });
    let acc_y = if pulls {
        sat_add64(a.acc.y, -GRAVITY_ACCEL)
    } else {
        a.acc.y
    };
    if grounded && a.vel.y < 0 {
        Actor { vel: Vec2 { x: a.vel.x, y: 0 }, acc: Vec2 { x: a.acc.x, y: 0 }, ..a }
    } else {
        Actor { acc: Vec2 { x: a.acc.x, y: acc_y }, ..a }
    }
}

// ---------------------------------------------------------------------------
// Friction

/// One tick of friction on a horizontal speed: multiply by FRICTION_NUM and
/// divide by FRICTION_DEN, rounding the magnitude down, keeping the sign.
pub open spec fn spec_friction64(v: int) -> int {
    if v >= 0 {
        v * (FRICTION_NUM as int) / (FRICTION_DEN as int)
    } else {
        -((-v) * (FRICTION_NUM as int) / (FRICTION_DEN as int))
    }
}

pub fn friction64(v: i64) -> (r: i64)
    ensures
        r == spec_friction64(v as int),
{
    if v >= 0 {
        let q: u128 = (v as u128) * (FRICTION_NUM as u128) / (FRICTION_DEN as u128);
        proof {
            assert((v as int) * (FRICTION_NUM as int) / (FRICTION_DEN as int) <= v && 0 <= (v as int)
                * (FRICTION_NUM as int) / (FRICTION_DEN as int)) by {
                vstd::arithmetic::mul::lemma_mul_inequality(FRICTION_NUM as int, FRICTION_DEN as int, v as int);
                vstd::arithmetic::div_mod::lemma_div_is_ordered(
                    (v as int) * FRICTION_NUM,
                    (v as int) * FRICTION_DEN,
                    FRICTION_DEN as int,
                );
                vstd::arithmetic::div_mod::lemma_div_by_multiple(v as int, FRICTION_DEN as int);
            }
        }
        q as i64
    } else {
        let m: u128 = (-(v as i128)) as u128;
        let q: u128 = m * (FRICTION_NUM as u128) / (FRICTION_DEN as u128);
        proof {
            assert((m as int) * (FRICTION_NUM as int) / (FRICTION_DEN as int) <= m && 0 <= (m as int)
                * (FRICTION_NUM as int) / (FRICTION_DEN as int)) by {
                vstd::arithmetic::mul::lemma_mul_inequality(FRICTION_NUM as int, FRICTION_DEN as int, m as int);
                vstd::arithmetic::div_mod::lemma_div_is_ordered(
                    (m as int) * FRICTION_NUM,
                    (m as int) * FRICTION_DEN,
                    FRICTION_DEN as int,
                );
                vstd::arithmetic::div_mod::lemma_div_by_multiple(m as int, FRICTION_DEN as int);
            }
        }
        -(q as i64)
    }
}

/// Friction applies to every actor's horizontal velocity, every tick,
/// grounded or not — exponential decay toward zero absent further input.
pub open spec fn spec_friction(a: Actor) -> Actor {
    Actor { vel: Vec2 { x: spec_friction64(a.vel.x as int) as i64, y: a.vel.y }, ..a }
}

pub fn friction(a: Actor) -> (r: Actor)
    ensures
        r == spec_friction(a),
{
    Actor { vel: Vec2 { x: friction64(a.vel.x), y: a.vel.y }, ..a }
}

// ---------------------------------------------------------------------------
// Patrol thrust

/// Mover enemies accelerate horizontally by a constant thrust in their
/// patrol direction.
pub open spec fn spec_patrol(a: Actor) -> Actor {
    match a.class {
        ActorClass::EnemyMover(m) => Actor {
            acc: Vec2 { x: sat64(a.acc.x + ENEMY_WALK_ACCEL * m.dir) as i64, y: a.acc.y },
            ..a
        },
        _ => a,
    }
}

pub fn patrol(a: Actor) -> (r: Actor)
    requires
        a.wf(),
    ensures
        r == spec_patrol(a),
        r.wf(),
{
    match a.class {
        ActorClass::EnemyMover(m) => {
            let thrust: i64 = if m.dir == 1 {
                ENEMY_WALK_ACCEL
            } else {
                -ENEMY_WALK_ACCEL
            };
            Actor { acc: Vec2 { x: sat_add64(a.acc.x, thrust), y: a.acc.y }, ..a }
        },
        _ => a,
    }
}

// ---------------------------------------------------------------------------
// Velocity accumulation

/// After integrators and collision responses, the tick's acceleration is
/// folded into the persistent velocity.
pub open spec fn spec_accumulate(a: Actor) -> Actor {
    Actor {
        vel: Vec2 {
            x: sat64(a.vel.x + a.acc.x) as i64,
            y: sat64(a.vel.y + a.acc.y) as i64,
        },
        ..a
    }
}

pub fn accumulate(a: Actor) -> (r: Actor)
    ensures
        r == spec_accumulate(a),
{
    Actor { vel: a.vel.sat_add(a.acc), ..a }
}

// ---------------------------------------------------------------------------
// Speed governor

/// A value clipped into [-cap, cap].
pub open spec fn spec_clamp64(v: int, cap: int) -> int {
    if v > cap {
        cap
    } else if v < -cap {
        -cap
    } else {
        v
    }
}

/// The speed governor clamps horizontal velocity to the actor-class cap.
/// Vertical speed is deliberately unclamped.
pub open spec fn spec_govern(a: Actor) -> Actor {
    Actor {
        vel: Vec2 {
            x: spec_clamp64(a.vel.x as int, a.class.spec_speed_cap() as int) as i64,
            y: a.vel.y,
        },
        ..a
    }
}

pub fn govern(a: Actor) -> (r: Actor)
    ensures
        r == spec_govern(a),
{
    let cap = a.class.speed_cap();
    let x = if a.vel.x > cap {
        cap
    } else if a.vel.x < -cap {
        -cap
    } else {
        a.vel.x
    };
    Actor { vel: Vec2 { x, y: a.vel.y }, ..a }
}

// ---------------------------------------------------------------------------
// Commit

/// While running, the tick's velocity becomes the desired translation
/// handed to the physics engine; while paused the stage is a no-op and the
/// world stays visibly frozen.
pub open spec fn spec_commit(a: Actor, running: bool) -> Actor {
    if running {
        Actor { committed: Some(a.vel), ..a }
    } else {
        a
    }
}

pub fn commit(a: Actor, running: bool) -> (r: Actor)
    ensures
        r == spec_commit(a, running),
{
    if running {
        Actor { committed: Some(a.vel), ..a }
    } else {
        a
    }
}

// ---------------------------------------------------------------------------
// Kill-bounce reward

/// Upward reward bounce accumulated over the first `n` contacts of the
/// player's report: one fixed increment per attack-hitbox contact.
pub open spec fn spec_bounce_fold(acc_y: int, contacts: Seq<Contact>, n: int) -> int
    decreases n,
{
    if n <= 0 {
        acc_y
    } else {
        let prev = spec_bounce_fold(acc_y, contacts, n - 1);
        if contacts[n - 1].other is EnemyAttackHitbox {
            sat64(prev + BOUNCE_ACCEL)
        } else {
            prev
        }
    }
}

/// A player striking enemy attack hitboxes gains the reward bounce,
/// independent of gravity or jump state this tick.  (Marking the struck
/// enemy dead is the kill scan's business, in [`crate::world`].)
pub open spec fn spec_bounce(a: Actor, report: ContactReport) -> Actor {
    if a.class.is_player() {
        Actor {
            acc: Vec2 {
                x: a.acc.x,
                y: spec_bounce_fold(a.acc.y as int, report.contacts@, report.contacts@.len() as int) as i64,
            },
            ..a
        }
    } else {
        a
    }
}

pub fn bounce(a: Actor, report: &ContactReport) -> (r: Actor)
    ensures
        r == spec_bounce(a, *report),
{
    match a.class {
        ActorClass::Player(_) => {
            let mut acc_y = a.acc.y;
            let n = report.contacts.len();
            let mut j: usize = 0;
            while j < n
                invariant
                    0 <= j <= n,
                    n == report.contacts@.len(),
                    acc_y == spec_bounce_fold(a.acc.y as int, report.contacts@, j as int),
                decreases n - j,
            {
                let c = report.contacts[j];
                if let ContactOther::EnemyAttackHitbox { parent: _ } = c.other {
                    acc_y = sat_add64(acc_y, BOUNCE_ACCEL);
                }
                j = j + 1;
            }
            Actor { acc: Vec2 { x: a.acc.x, y: acc_y }, ..a }
        },
        _ => a,
    }
}

// ---------------------------------------------------------------------------
// Patrol direction reversal

/// Patrol direction after one contact: a normal whose horizontal component
/// lies in the tolerance band around -1 or +1 flips the direction to match;
/// anything else leaves it alone.
pub open spec fn spec_flip_once(dir: int, nx: int) -> int {
    if -WALL_NORMAL_BAND_HI < nx && nx < -WALL_NORMAL_BAND_LO {
        -1
    } else if WALL_NORMAL_BAND_LO < nx && nx < WALL_NORMAL_BAND_HI {
        1
    } else {
        dir
    }
}

/// Patrol direction after the first `n` contacts, applied in report order.
pub open spec fn spec_flip_fold(dir: int, contacts: Seq<Contact>, n: int) -> int
    decreases n,
{
    if n <= 0 {
        dir
    } else {
        spec_flip_once(spec_flip_fold(dir, contacts, n - 1), contacts[n - 1].normal.x as int)
    }
}

/// Mover enemies bounce off walls: their patrol direction follows the last
/// wall-like contact normal of the tick.
pub open spec fn spec_patrol_flip(a: Actor, report: ContactReport) -> Actor {
    match a.class {
        ActorClass::EnemyMover(m) => Actor {
            class: ActorClass::EnemyMover(
                MoverState {
                    dir: spec_flip_fold(m.dir as int, report.contacts@, report.contacts@.len() as int) as i64,
                },
            ),
            ..a
        },
        _ => a,
    }
}

pub fn patrol_flip(a: Actor, report: &ContactReport) -> (r: Actor)
    requires
        a.wf(),
    ensures
        r == spec_patrol_flip(a, *report),
        r.wf(),
{
    match a.class {
        ActorClass::EnemyMover(m) => {
            let mut dir = m.dir;
            let n = report.contacts.len();
            let mut j: usize = 0;
            while j < n
                invariant
                    0 <= j <= n,
                    n == report.contacts@.len(),
                    dir == spec_flip_fold(m.dir as int, report.contacts@, j as int),
                    dir == 1 || dir == -1,
                    m.dir == 1 || m.dir == -1,
                decreases n - j,
            {
                let nx = report.contacts[j].normal.x;
                if -WALL_NORMAL_BAND_HI < nx && nx < -WALL_NORMAL_BAND_LO {
                    dir = -1;
                } else if WALL_NORMAL_BAND_LO < nx && nx < WALL_NORMAL_BAND_HI {
                    dir = 1;
                }
                j = j + 1;
            }
            Actor { class: ActorClass::EnemyMover(MoverState { dir }), ..a }
        },
        _ => a,
    }
}

// ---------------------------------------------------------------------------
// Supplementary wall stop

/// Horizontal velocity and acceleration after one wall-ray hit: motion or
/// thrust toward a wall the ray found is zeroed, both components at once.
pub open spec fn spec_wall_once(vx: int, ax: int, hit: WallHit) -> (int, int) {
    if hit.wall {
        if (vx > 0 || ax > 0) && hit.normal_x < 0 {
            (0int, 0int)
        } else if (vx < 0 || ax < 0) && hit.normal_x > 0 {
            (0int, 0int)
        } else {
            (vx, ax)
        }
    } else {
        (vx, ax)
    }
}

/// Horizontal motion state after the first `n` wall-ray hits.
pub open spec fn spec_wall_fold(vx: int, ax: int, hits: Seq<WallHit>, n: int) -> (int, int)
    decreases n,
{
    if n <= 0 {
        (vx, ax)
    } else {
        let prev = spec_wall_fold(vx, ax, hits, n - 1);
        spec_wall_once(prev.0, prev.1, hits[n - 1])
    }
}

/// The wall-stop correction applied to the player: rays cast left and right
/// from the player's center zero horizontal motion toward any wall they hit,
/// so high approach speeds cannot clip through the controller's own sliding
/// resolution.
pub open spec fn spec_wall_stop(a: Actor, hits: Seq<WallHit>) -> Actor {
    let folded = spec_wall_fold(a.vel.x as int, a.acc.x as int, hits, hits.len() as int);
    Actor {
        vel: Vec2 { x: folded.0 as i64, y: a.vel.y },
        acc: Vec2 { x: folded.1 as i64, y: a.acc.y },
        ..a
    }
}

pub fn wall_stop(a: Actor, hits: &Vec<WallHit>) -> (r: Actor)
    ensures
        r == spec_wall_stop(a, hits@),
{
    let mut vx = a.vel.x;
    let mut ax = a.acc.x;
    let n = hits.len();
    let mut j: usize = 0;
    while j < n
        invariant
            0 <= j <= n,
            n == hits@.len(),
            vx == spec_wall_fold(a.vel.x as int, a.acc.x as int, hits@, j as int).0,
            ax == spec_wall_fold(a.vel.x as int, a.acc.x as int, hits@, j as int).1,
        decreases n - j,
    {
        let h = hits[j];
        if h.wall {
            if (vx > 0 || ax > 0) && h.normal_x < 0 {
                vx = 0;
                ax = 0;
            } else if (vx < 0 || ax < 0) && h.normal_x > 0 {
                vx = 0;
                ax = 0;
            }
        }
        j = j + 1;
    }
    Actor { vel: Vec2 { x: vx, y: a.vel.y }, acc: Vec2 { x: ax, y: a.acc.y }, ..a }
}

// ---------------------------------------------------------------------------
// Death-plane cull

/// A player whose center has fallen below the death plane is marked dead;
/// skipped while paused.
pub open spec fn spec_fall_out(a: Actor, pos_y: int, running: bool) -> Actor {
    if running && a.class.is_player() && pos_y < DEATH_PLANE_Y {
        Actor { dead: true, ..a }
    } else {
        a
    }
}

pub fn fall_out(a: Actor, pos_y: i64, running: bool) -> (r: Actor)
    ensures
        r == spec_fall_out(a, pos_y as int, running),
{
    match a.class {
        ActorClass::Player(_) => {
            if running && pos_y < DEATH_PLANE_Y {
                Actor { dead: true, ..a }
            } else {
                a
            }
        },
        _ => a,
    }
}

} // verus!
