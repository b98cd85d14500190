//! Actor motion state: per-actor velocity, acceleration, class data and the
//! transient death marker.

use vstd::prelude::*;
use crate::units::{COYOTE_TIME_MS, PLAYER_WALK_SPEED, ENEMY_WALK_SPEED};
use crate::vec2::Vec2;

verus! {

/// Counts the time since the player last left the ground, saturating at the
/// coyote grace window.  A jump may start only while the timer has not yet
/// finished; starting one exhausts the timer so the same grace window cannot
/// fund a second jump.
#[derive(Clone, Copy, PartialEq, Eq, Structural, Debug)]
pub struct CoyoteTimer {
    pub elapsed_ms: u64,
}

impl CoyoteTimer {
    /// The timer never runs past the grace window.
    pub open spec fn wf(self) -> bool {
        self.elapsed_ms <= COYOTE_TIME_MS
    }

    pub open spec fn spec_finished(self) -> bool {
        self.elapsed_ms >= COYOTE_TIME_MS
    }

    /// The grace window has fully elapsed.
    #[verifier::when_used_as_spec(spec_finished)]
    pub fn finished(self) -> (r: bool)
        ensures
            r == self.spec_finished(),
    {
        self.elapsed_ms >= COYOTE_TIME_MS
    }

    /// A freshly wound timer: the actor is (or just was) grounded.
    pub fn reset() -> (r: Self)
        ensures
            r.elapsed_ms == 0,
            r.wf(),
    {
        CoyoteTimer { elapsed_ms: 0 }
    }

    pub open spec fn spec_advance(self, dt_ms: u64) -> Self {
        if self.elapsed_ms + dt_ms >= COYOTE_TIME_MS {
            CoyoteTimer { elapsed_ms: COYOTE_TIME_MS }
        } else {
            CoyoteTimer { elapsed_ms: (self.elapsed_ms + dt_ms) as u64 }
        }
    }

    /// Runs the timer forward by one tick, saturating at the window.
    #[verifier::when_used_as_spec(spec_advance)]
    pub fn advance(self, dt_ms: u64) -> (r: Self)
        ensures
            r == self.spec_advance(dt_ms),
            r.wf(),
    {
        if dt_ms >= COYOTE_TIME_MS || self.elapsed_ms >= COYOTE_TIME_MS - dt_ms {
            CoyoteTimer { elapsed_ms: COYOTE_TIME_MS }
        } else {
            CoyoteTimer { elapsed_ms: self.elapsed_ms + dt_ms }
        }
    }

    /// Forces the window to "already elapsed", spending the grace period.
    pub fn exhaust() -> (r: Self)
        ensures
            r.elapsed_ms == COYOTE_TIME_MS,
            r.wf(),
    {
        CoyoteTimer { elapsed_ms: COYOTE_TIME_MS }
    }
}

/// Player-only timers: when the current jump started, and the coyote window.
#[derive(Clone, Copy, PartialEq, Eq, Structural, Debug)]
pub struct PlayerState {
    /// Timestamp of the tick the current jump impulse began.
    pub jump_start_ms: u64,
    pub coyote: CoyoteTimer,
}

impl PlayerState {
    pub open spec fn wf(self) -> bool {
        self.coyote.wf()
    }

    /// State at spawn: no jump recorded, grace window open.
    pub fn new() -> (r: Self)
        ensures
            r.jump_start_ms == 0,
            r.coyote.elapsed_ms == 0,
            r.wf(),
    {
        PlayerState { jump_start_ms: 0, coyote: CoyoteTimer { elapsed_ms: 0 } }
    }
}

/// Patrol state of a mover enemy: the sign of its constant thrust.
#[derive(Clone, Copy, PartialEq, Eq, Structural, Debug)]
pub struct MoverState {
    /// Always +1 or -1; flipped on wall contact.
    pub dir: i64,
}

impl MoverState {
    pub open spec fn wf(self) -> bool {
        self.dir == 1 || self.dir == -1
    }

    /// Movers start out patrolling to the right.
    pub fn new() -> (r: Self)
        ensures
            r.dir == 1,
            r.wf(),
    {
        MoverState { dir: 1 }
    }
}

/// The closed set of actor classes, carrying their class-specific fields.
#[derive(Clone, Copy, PartialEq, Eq, Structural, Debug)]
pub enum ActorClass {
    Player(PlayerState),
    Enemy,
    EnemyMover(MoverState),
}

impl ActorClass {
    pub open spec fn wf(self) -> bool {
        match self {
            ActorClass::Player(p) => p.wf(),
            ActorClass::Enemy => true,
            ActorClass::EnemyMover(m) => m.wf(),
        }
    }

    pub open spec fn is_player(self) -> bool {
        self is Player
    }

    /// Enemy bodies (mover or not) kill the player on contact.
    pub open spec fn is_enemy(self) -> bool {
        self is Enemy || self is EnemyMover
    }

    pub open spec fn spec_speed_cap(&self) -> i64 {
        if self is Player {
            PLAYER_WALK_SPEED
        } else {
            ENEMY_WALK_SPEED
        }
    }

    /// Class cap on horizontal speed, enforced by the speed governor.
    #[verifier::when_used_as_spec(spec_speed_cap)]
    pub fn speed_cap(&self) -> (r: i64)
        ensures
            r == self.spec_speed_cap(),
    {
        match self {
            ActorClass::Player(_) => PLAYER_WALK_SPEED,
            ActorClass::Enemy => ENEMY_WALK_SPEED,
            ActorClass::EnemyMover(_) => ENEMY_WALK_SPEED,
        }
    }
}

/// One kinematic body: the motion state this core owns, plus the advisory
/// death marker and the translation last committed to the physics engine.
#[derive(Clone, Copy, Debug)]
pub struct Actor {
    pub class: ActorClass,
    /// Velocity in milliunits per tick; persists across ticks.
    pub vel: Vec2,
    /// Acceleration in milliunits per tick per tick; rebuilt every tick.
    pub acc: Vec2,
    /// Death marker: once set, the actor is removed at the start of the next
    /// tick.  A presence flag, not a counter; marking twice has no further
    /// effect.
    pub dead: bool,
    /// Desired translation last handed to the physics engine, if any.
    pub committed: Option<Vec2>,
}

impl Actor {
    pub open spec fn wf(self) -> bool {
        self.class.wf()
    }

    /// Spawns the player: motion at rest, timers fresh, and a zero
    /// translation already committed to the controller.
    pub fn player() -> (r: Actor)
        ensures
            r.class == ActorClass::Player(PlayerState { jump_start_ms: 0, coyote: CoyoteTimer { elapsed_ms: 0 } }),
            r.vel == (Vec2 { x: 0i64, y: 0i64 }),
            r.acc == (Vec2 { x: 0i64, y: 0i64 }),
            !r.dead,
            r.committed == Some(Vec2 { x: 0i64, y: 0i64 }),
            r.wf(),
    {
        Actor {
            class: ActorClass::Player(PlayerState::new()),
            vel: Vec2::zero(),
            acc: Vec2::zero(),
            dead: false,
            committed: Some(Vec2::zero()),
        }
    }

    /// Spawns a stationary enemy body.
    pub fn enemy() -> (r: Actor)
        ensures
            r.class == ActorClass::Enemy,
            r.vel == (Vec2 { x: 0i64, y: 0i64 }),
            r.acc == (Vec2 { x: 0i64, y: 0i64 }),
            !r.dead,
            r.committed is None,
            r.wf(),
    {
        Actor {
            class: ActorClass::Enemy,
            vel: Vec2::zero(),
            acc: Vec2::zero(),
            dead: false,
            committed: None,
        }
    }

    /// Spawns a patrolling enemy, initially moving right.
    pub fn enemy_mover() -> (r: Actor)
        ensures
            r.class == ActorClass::EnemyMover(MoverState { dir: 1i64 }),
            r.vel == (Vec2 { x: 0i64, y: 0i64 }),
            r.acc == (Vec2 { x: 0i64, y: 0i64 }),
            !r.dead,
            r.committed is None,
            r.wf(),
    {
        Actor {
            class: ActorClass::EnemyMover(MoverState::new()),
            vel: Vec2::zero(),
            acc: Vec2::zero(),
            dead: false,
            committed: None,
        }
    }
}

} // verus!
