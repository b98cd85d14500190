//! The actor arena and the fixed-order tick pipeline over it.
//!
//! Actors live at stable indices; a death marker vacates the slot at the
//! start of the next tick, never mid-tick.  Every stage is a total pass over
//! the arena whose result is pinned, slot by slot, to the stage's spec
//! function; [`World::run_tick`] chains them in the one order the design
//! allows: sweep, reset, input, integrate, respond, patrol, accumulate,
//! govern, commit.

use vstd::prelude::*;
use crate::vec2::Vec2;
use crate::actor::{Actor, ActorClass};
use crate::contact::{Contact, ContactOther, ContactReport, WallHit};
use crate::input::{RawInput, spec_resolve_input, resolve_input};
use crate::stages::{
    spec_clear_acc, clear_acc, spec_gravity, gravity, spec_friction, friction,
    spec_patrol, patrol, spec_accumulate, accumulate, spec_govern, govern,
    spec_commit, commit, spec_bounce, bounce, spec_patrol_flip, patrol_flip,
    spec_wall_stop, wall_stop, spec_fall_out, fall_out,
};

verus! {

/// Read-only simulation context supplied once per tick by the caller; the
/// pause flag is sampled at the tick boundary and never re-read mid-tick.
#[derive(Clone, Copy, PartialEq, Eq, Structural, Debug)]
pub struct TickCtx {
    /// The process-wide pause flag.
    pub paused: bool,
    /// Absolute time at this tick, in milliseconds.
    pub now_ms: u64,
    /// Time since the previous tick, in milliseconds.
    pub dt_ms: u64,
}

/// A slot is well formed when the actor in it is.
pub open spec fn slot_wf(slot: Option<Actor>) -> bool {
    match slot {
        Some(a) => a.wf(),
        None => true,
    }
}

/// Every occupied slot of the arena holds a well-formed actor.
pub open spec fn wf_arena(s: Seq<Option<Actor>>) -> bool {
    forall|i: int| 0 <= i < s.len() ==> slot_wf(#[trigger] s[i])
}

/// Lifts a per-actor stage function over one slot.
pub open spec fn map_slot(slot: Option<Actor>, f: spec_fn(Actor) -> Actor) -> Option<Actor> {
    match slot {
        Some(a) => Some(f(a)),
        None => None,
    }
}

// ---------------------------------------------------------------------------
// Stage results, slot by slot

/// The sweep drains last tick's death markers: marked slots become vacant.
pub open spec fn spec_sweep_slot(slot: Option<Actor>) -> Option<Actor> {
    match slot {
        Some(a) => if a.dead {
            None
        } else {
            Some(a)
        },
        None => None,
    }
}

pub open spec fn spec_sweep_seq(s: Seq<Option<Actor>>) -> Seq<Option<Actor>> {
    Seq::new(s.len(), |i: int| spec_sweep_slot(s[i]))
}

pub open spec fn spec_clear_seq(s: Seq<Option<Actor>>) -> Seq<Option<Actor>> {
    Seq::new(s.len(), |i: int| map_slot(s[i], |a: Actor| spec_clear_acc(a)))
}

/// The input resolver runs only while the simulation runs, and only player
/// actors read input.
pub open spec fn spec_input_seq(
    s: Seq<Option<Actor>>,
    reports: Seq<ContactReport>,
    input: RawInput,
    ctx: TickCtx,
) -> Seq<Option<Actor>> {
    if ctx.paused {
        s
    } else {
        Seq::new(
            s.len(),
            |i: int| map_slot(
                s[i],
                |a: Actor| spec_resolve_input(a, reports[i].grounded, input, ctx.now_ms, ctx.dt_ms),
            ),
        )
    }
}

pub open spec fn spec_gravity_seq(
    s: Seq<Option<Actor>>,
    reports: Seq<ContactReport>,
    ctx: TickCtx,
) -> Seq<Option<Actor>> {
    Seq::new(
        s.len(),
        |i: int| map_slot(s[i], |a: Actor| spec_gravity(a, reports[i].grounded, !ctx.paused)),
    )
}

pub open spec fn spec_friction_seq(s: Seq<Option<Actor>>) -> Seq<Option<Actor>> {
    Seq::new(s.len(), |i: int| map_slot(s[i], |a: Actor| spec_friction(a)))
}

pub open spec fn spec_bounce_seq(
    s: Seq<Option<Actor>>,
    reports: Seq<ContactReport>,
) -> Seq<Option<Actor>> {
    Seq::new(s.len(), |i: int| map_slot(s[i], |a: Actor| spec_bounce(a, reports[i])))
}

pub open spec fn spec_flip_seq(
    s: Seq<Option<Actor>>,
    reports: Seq<ContactReport>,
) -> Seq<Option<Actor>> {
    Seq::new(s.len(), |i: int| map_slot(s[i], |a: Actor| spec_patrol_flip(a, reports[i])))
}

pub open spec fn spec_fall_seq(
    s: Seq<Option<Actor>>,
    positions: Seq<Vec2>,
    ctx: TickCtx,
) -> Seq<Option<Actor>> {
    Seq::new(
        s.len(),
        |i: int| map_slot(s[i], |a: Actor| spec_fall_out(a, positions[i].y as int, !ctx.paused)),
    )
}

pub open spec fn spec_patrol_seq(s: Seq<Option<Actor>>) -> Seq<Option<Actor>> {
    Seq::new(s.len(), |i: int| map_slot(s[i], |a: Actor| spec_patrol(a)))
}

pub open spec fn spec_accumulate_seq(s: Seq<Option<Actor>>) -> Seq<Option<Actor>> {
    Seq::new(s.len(), |i: int| map_slot(s[i], |a: Actor| spec_accumulate(a)))
}

pub open spec fn spec_govern_seq(s: Seq<Option<Actor>>) -> Seq<Option<Actor>> {
    Seq::new(s.len(), |i: int| map_slot(s[i], |a: Actor| spec_govern(a)))
}

pub open spec fn spec_commit_seq(s: Seq<Option<Actor>>, ctx: TickCtx) -> Seq<Option<Actor>> {
    Seq::new(s.len(), |i: int| map_slot(s[i], |a: Actor| spec_commit(a, !ctx.paused)))
}

// ---------------------------------------------------------------------------
// Kill conditions

/// The kill, if any, that one contact of actor `i`'s report fires: the
/// player dies on a player-kill hazard; an enemy dies when the player
/// strikes its attack hitbox; the player dies when an enemy's own report
/// shows contact with it.
pub open spec fn spec_contact_kill(s: Seq<Option<Actor>>, i: int, c: Contact) -> Option<int> {
    if 0 <= i < s.len() {
        match s[i] {
            Some(a) => match c.other {
                ContactOther::PlayerKillHazard => if a.class.is_player() {
                    Some(i)
                } else {
                    None
                },
                ContactOther::EnemyAttackHitbox { parent } => if a.class.is_player() {
                    Some(parent as int)
                } else {
                    None
                },
                ContactOther::KinematicActor { index } => if a.class.is_enemy() && 0 <= index
                    < s.len() && slot_is_player(s[index as int]) {
                    Some(index as int)
                } else {
                    None
                },
                _ => None,
            },
            None => None,
        }
    } else {
        None
    }
}

/// Actor `i`'s report contains a contact that kills `t`.
pub open spec fn spec_report_kills(
    s: Seq<Option<Actor>>,
    reports: Seq<ContactReport>,
    i: int,
    t: int,
) -> bool {
    exists|j: int|
        0 <= j < reports[i].contacts@.len() && spec_contact_kill(s, i, reports[i].contacts@[j])
            == Some(t)
}

/// Some actor's report this tick kills `t`.
pub open spec fn spec_kill_target(s: Seq<Option<Actor>>, reports: Seq<ContactReport>, t: int) -> bool {
    exists|i: int| 0 <= i < s.len() && #[trigger] spec_report_kills(s, reports, i, t)
}

/// The collision responders' death markings: a targeted actor's marker is
/// set; the marker is a flag, so repeated kill conditions in one tick still
/// leave exactly one marker.
pub open spec fn spec_kill_seq(
    s: Seq<Option<Actor>>,
    reports: Seq<ContactReport>,
) -> Seq<Option<Actor>> {
    Seq::new(
        s.len(),
        |t: int| match s[t] {
            Some(a) => Some(Actor { dead: a.dead || spec_kill_target(s, reports, t), ..a }),
            None => None,
        },
    )
}

// ---------------------------------------------------------------------------
// The sole player

pub open spec fn slot_is_player(slot: Option<Actor>) -> bool {
    match slot {
        Some(a) => a.class.is_player(),
        None => false,
    }
}

/// Slot `i` holds the one player in the arena.  The supplementary wall rays
/// are cast for a single player only; with no player, or more than one, the
/// correction is skipped.
pub open spec fn spec_is_sole_player(s: Seq<Option<Actor>>, i: int) -> bool {
    &&& 0 <= i < s.len()
    &&& slot_is_player(s[i])
    &&& forall|j: int| 0 <= j < s.len() && j != i ==> !slot_is_player(#[trigger] s[j])
}

pub open spec fn spec_wall_seq(s: Seq<Option<Actor>>, hits: Seq<WallHit>) -> Seq<Option<Actor>> {
    Seq::new(
        s.len(),
        |i: int| if spec_is_sole_player(s, i) {
            map_slot(s[i], |a: Actor| spec_wall_stop(a, hits))
        } else {
            s[i]
        },
    )
}

// ---------------------------------------------------------------------------
// The arena

/// The simulated world: every kinematic actor, at a stable index.
pub struct World {
    pub actors: Vec<Option<Actor>>,
}

impl World {
    /// An empty arena.
    pub fn new() -> (r: World)
        ensures
            r.actors@.len() == 0,
            wf_arena(r.actors@),
    {
        World { actors: Vec::new() }
    }

    /// Adds an actor; its index is stable for its lifetime.
    pub fn spawn(&mut self, a: Actor) -> (idx: usize)
        requires
            a.wf(),
            wf_arena(old(self).actors@),
        ensures
            final(self).actors@ == old(self).actors@.push(Some(a)),
            idx as int == old(self).actors@.len(),
            wf_arena(final(self).actors@),
    {
        let idx = self.actors.len();
        self.actors.push(Some(a));
        idx
    }

    /// Copies out one slot; vacant or out-of-range indices yield `None`.
    pub fn actor_at(&self, i: usize) -> (r: Option<Actor>)
        ensures
            r == if (i as int) < self.actors@.len() {
                self.actors@[i as int]
            } else {
                Option::<Actor>::None
            },
    {
        if i < self.actors.len() {
            self.actors[i]
        } else {
            None
        }
    }

    /// Drains the death markers attached last tick: their slots go vacant.
    /// Runs first in the tick, so a marker never despawns an actor mid-tick.
    pub fn sweep_dead(&mut self)
        ensures
            final(self).actors@ == spec_sweep_seq(old(self).actors@),
            wf_arena(old(self).actors@) ==> wf_arena(final(self).actors@),
    {
        let n = self.actors.len();
        let mut i: usize = 0;
        while i < n
            invariant
                0 <= i <= n,
                n == old(self).actors@.len(),
                self.actors@.len() == n,
                forall|k: int| 0 <= k < i ==> self.actors@[k] == spec_sweep_seq(old(self).actors@)[k],
                forall|k: int| i <= k < n ==> self.actors@[k] == old(self).actors@[k],
            decreases n - i,
        {
            let slot = self.actors[i];
            match slot {
                Some(a) => if a.dead {
                    self.actors[i] = None;
                },
                None => {},
            }
            i = i + 1;
        }
        proof {
            assert(self.actors@ =~= spec_sweep_seq(old(self).actors@));
            if wf_arena(old(self).actors@) {
                assert forall|k: int| 0 <= k < self.actors@.len() implies slot_wf(
                    #[trigger] self.actors@[k],
                ) by {
                    assert(slot_wf(old(self).actors@[k]));
                }
            }
        }
    }

    /// Resets every actor's acceleration to the zero vector, strictly before
    /// any integrator runs.
    pub fn clear_acceleration(&mut self)
        ensures
            final(self).actors@ == spec_clear_seq(old(self).actors@),
            wf_arena(old(self).actors@) ==> wf_arena(final(self).actors@),
    {
        let n = self.actors.len();
        let mut i: usize = 0;
        while i < n
            invariant
                0 <= i <= n,
                n == old(self).actors@.len(),
                self.actors@.len() == n,
                forall|k: int| 0 <= k < i ==> self.actors@[k] == spec_clear_seq(old(self).actors@)[k],
                forall|k: int| i <= k < n ==> self.actors@[k] == old(self).actors@[k],
            decreases n - i,
        {
            let slot = self.actors[i];
            match slot {
                Some(a) => {
                    self.actors[i] = Some(clear_acc(a));
                },
                None => {},
            }
            i = i + 1;
        }
        proof {
            assert(self.actors@ =~= spec_clear_seq(old(self).actors@));
            if wf_arena(old(self).actors@) {
                assert forall|k: int| 0 <= k < self.actors@.len() implies slot_wf(
                    #[trigger] self.actors@[k],
                ) by {
                    assert(slot_wf(old(self).actors@[k]));
                }
            }
        }
    }

    /// Runs the input resolver over every player actor: intents, coyote
    /// timer and jump bookkeeping.  Skipped entirely while paused.
    pub fn player_movement(&mut self, input: RawInput, ctx: TickCtx, reports: &Vec<ContactReport>)
        requires
            wf_arena(old(self).actors@),
            reports@.len() == old(self).actors@.len(),
        ensures
            final(self).actors@ == spec_input_seq(old(self).actors@, reports@, input, ctx),
            wf_arena(final(self).actors@),
    {
        if ctx.paused {
            return;
        }
        let n = self.actors.len();
        let mut i: usize = 0;
        while i < n
            invariant
                0 <= i <= n,
                !ctx.paused,
                n == old(self).actors@.len(),
                self.actors@.len() == n,
                reports@.len() == n,
                wf_arena(old(self).actors@),
                forall|k: int|
                    0 <= k < i ==> self.actors@[k] == spec_input_seq(
                        old(self).actors@,
                        reports@,
                        input,
                        ctx,
                    )[k],
                forall|k: int| 0 <= k < i ==> slot_wf(#[trigger] self.actors@[k]),
                forall|k: int| i <= k < n ==> self.actors@[k] == old(self).actors@[k],
            decreases n - i,
        {
            let slot = self.actors[i];
            match slot {
                Some(a) => {
                    proof {
                        assert(slot_wf(old(self).actors@[i as int]));
                    }
                    let grounded = reports[i].grounded;
                    self.actors[i] = Some(resolve_input(a, grounded, input, ctx.now_ms, ctx.dt_ms));
                },
                None => {},
            }
            i = i + 1;
        }
        proof {
            assert(self.actors@ =~= spec_input_seq(old(self).actors@, reports@, input, ctx));
        }
    }

    /// The gravity integrator over the arena; frozen internally while
    /// paused, and settles grounded, downward-moving actors to rest.
    pub fn kinematic_gravity(&mut self, ctx: TickCtx, reports: &Vec<ContactReport>)
        requires
            wf_arena(old(self).actors@),
            reports@.len() == old(self).actors@.len(),
        ensures
            final(self).actors@ == spec_gravity_seq(old(self).actors@, reports@, ctx),
            wf_arena(final(self).actors@),
    {
        let n = self.actors.len();
        let mut i: usize = 0;
        while i < n
            invariant
                0 <= i <= n,
                n == old(self).actors@.len(),
                self.actors@.len() == n,
                reports@.len() == n,
                wf_arena(old(self).actors@),
                forall|k: int|
                    0 <= k < i ==> self.actors@[k] == spec_gravity_seq(
                        old(self).actors@,
                        reports@,
                        ctx,
                    )[k],
                forall|k: int| 0 <= k < i ==> slot_wf(#[trigger] self.actors@[k]),
                forall|k: int| i <= k < n ==> self.actors@[k] == old(self).actors@[k],
            decreases n - i,
        {
            let slot = self.actors[i];
            match slot {
                Some(a) => {
                    proof {
                        assert(slot_wf(old(self).actors@[i as int]));
                    }
                    let grounded = reports[i].grounded;
                    self.actors[i] = Some(gravity(a, grounded, !ctx.paused));
                },
                None => {},
            }
            i = i + 1;
        }
        proof {
            assert(self.actors@ =~= spec_gravity_seq(old(self).actors@, reports@, ctx));
        }
    }

    /// Friction on every actor's horizontal velocity, every tick.
    pub fn kinematic_apply_friction(&mut self)
        requires
            wf_arena(old(self).actors@),
        ensures
            final(self).actors@ == spec_friction_seq(old(self).actors@),
            wf_arena(final(self).actors@),
    {
        let n = self.actors.len();
        let mut i: usize = 0;
        while i < n
            invariant
                0 <= i <= n,
                n == old(self).actors@.len(),
                self.actors@.len() == n,
                wf_arena(old(self).actors@),
                forall|k: int|
                    0 <= k < i ==> self.actors@[k] == spec_friction_seq(old(self).actors@)[k],
                forall|k: int| 0 <= k < i ==> slot_wf(#[trigger] self.actors@[k]),
                forall|k: int| i <= k < n ==> self.actors@[k] == old(self).actors@[k],
            decreases n - i,
        {
            let slot = self.actors[i];
            match slot {
                Some(a) => {
                    proof {
                        assert(slot_wf(old(self).actors@[i as int]));
                    }
                    self.actors[i] = Some(friction(a));
                },
                None => {},
            }
            i = i + 1;
        }
        proof {
            assert(self.actors@ =~= spec_friction_seq(old(self).actors@));
        }
    }

    /// The reward bounce: each player gains upward acceleration per attack
    /// hitbox in its contact report.
    pub fn player_bounce(&mut self, reports: &Vec<ContactReport>)
        requires
            wf_arena(old(self).actors@),
            reports@.len() == old(self).actors@.len(),
        ensures
            final(self).actors@ == spec_bounce_seq(old(self).actors@, reports@),
            wf_arena(final(self).actors@),
    {
        let n = self.actors.len();
        let mut i: usize = 0;
        while i < n
            invariant
                0 <= i <= n,
                n == old(self).actors@.len(),
                self.actors@.len() == n,
                reports@.len() == n,
                wf_arena(old(self).actors@),
                forall|k: int|
                    0 <= k < i ==> self.actors@[k] == spec_bounce_seq(
                        old(self).actors@,
                        reports@,
                    )[k],
                forall|k: int| 0 <= k < i ==> slot_wf(#[trigger] self.actors@[k]),
                forall|k: int| i <= k < n ==> self.actors@[k] == old(self).actors@[k],
            decreases n - i,
        {
            let slot = self.actors[i];
            match slot {
                Some(a) => {
                    proof {
                        assert(slot_wf(old(self).actors@[i as int]));
                    }
                    self.actors[i] = Some(bounce(a, &reports[i]));
                },
                None => {},
            }
            i = i + 1;
        }
        proof {
            assert(self.actors@ =~= spec_bounce_seq(old(self).actors@, reports@));
        }
    }

    /// Mover enemies flip their patrol direction on wall-like contact
    /// normals.
    pub fn enemy_bounce_off_obstacle(&mut self, reports: &Vec<ContactReport>)
        requires
            wf_arena(old(self).actors@),
            reports@.len() == old(self).actors@.len(),
        ensures
            final(self).actors@ == spec_flip_seq(old(self).actors@, reports@),
            wf_arena(final(self).actors@),
    {
        let n = self.actors.len();
        let mut i: usize = 0;
        while i < n
            invariant
                0 <= i <= n,
                n == old(self).actors@.len(),
                self.actors@.len() == n,
                reports@.len() == n,
                wf_arena(old(self).actors@),
                forall|k: int|
                    0 <= k < i ==> self.actors@[k] == spec_flip_seq(
                        old(self).actors@,
                        reports@,
                    )[k],
                forall|k: int| 0 <= k < i ==> slot_wf(#[trigger] self.actors@[k]),
                forall|k: int| i <= k < n ==> self.actors@[k] == old(self).actors@[k],
            decreases n - i,
        {
            let slot = self.actors[i];
            match slot {
                Some(a) => {
                    proof {
                        assert(slot_wf(old(self).actors@[i as int]));
                    }
                    self.actors[i] = Some(patrol_flip(a, &reports[i]));
                },
                None => {},
            }
            i = i + 1;
        }
        proof {
            assert(self.actors@ =~= spec_flip_seq(old(self).actors@, reports@));
        }
    }

    /// Marks players fallen below the death plane; skipped while paused.
    pub fn actor_fall_out(&mut self, ctx: TickCtx, positions: &Vec<Vec2>)
        requires
            wf_arena(old(self).actors@),
            positions@.len() == old(self).actors@.len(),
        ensures
            final(self).actors@ == spec_fall_seq(old(self).actors@, positions@, ctx),
            wf_arena(final(self).actors@),
    {
        let n = self.actors.len();
        let mut i: usize = 0;
        while i < n
            invariant
                0 <= i <= n,
                n == old(self).actors@.len(),
                self.actors@.len() == n,
                positions@.len() == n,
                wf_arena(old(self).actors@),
                forall|k: int|
                    0 <= k < i ==> self.actors@[k] == spec_fall_seq(
                        old(self).actors@,
                        positions@,
                        ctx,
                    )[k],
                forall|k: int| 0 <= k < i ==> slot_wf(#[trigger] self.actors@[k]),
                forall|k: int| i <= k < n ==> self.actors@[k] == old(self).actors@[k],
            decreases n - i,
        {
            let slot = self.actors[i];
            match slot {
                Some(a) => {
                    proof {
                        assert(slot_wf(old(self).actors@[i as int]));
                    }
                    self.actors[i] = Some(fall_out(a, positions[i].y, !ctx.paused));
                },
                None => {},
            }
            i = i + 1;
        }
        proof {
            assert(self.actors@ =~= spec_fall_seq(old(self).actors@, positions@, ctx));
        }
    }

    /// Patrol thrust for mover enemies.
    pub fn move_enemies(&mut self)
        requires
            wf_arena(old(self).actors@),
        ensures
            final(self).actors@ == spec_patrol_seq(old(self).actors@),
            wf_arena(final(self).actors@),
    {
        let n = self.actors.len();
        let mut i: usize = 0;
        while i < n
            invariant
                0 <= i <= n,
                n == old(self).actors@.len(),
                self.actors@.len() == n,
                wf_arena(old(self).actors@),
                forall|k: int|
                    0 <= k < i ==> self.actors@[k] == spec_patrol_seq(old(self).actors@)[k],
                forall|k: int| 0 <= k < i ==> slot_wf(#[trigger] self.actors@[k]),
                forall|k: int| i <= k < n ==> self.actors@[k] == old(self).actors@[k],
            decreases n - i,
        {
            let slot = self.actors[i];
            match slot {
                Some(a) => {
                    proof {
                        assert(slot_wf(old(self).actors@[i as int]));
                    }
                    self.actors[i] = Some(patrol(a));
                },
                None => {},
            }
            i = i + 1;
        }
        proof {
            assert(self.actors@ =~= spec_patrol_seq(old(self).actors@));
        }
    }

    /// Folds this tick's accumulated acceleration into velocity.
    pub fn kinematic_set_velocity(&mut self)
        requires
            wf_arena(old(self).actors@),
        ensures
            final(self).actors@ == spec_accumulate_seq(old(self).actors@),
            wf_arena(final(self).actors@),
    {
        let n = self.actors.len();
        let mut i: usize = 0;
        while i < n
            invariant
                0 <= i <= n,
                n == old(self).actors@.len(),
                self.actors@.len() == n,
                wf_arena(old(self).actors@),
                forall|k: int|
                    0 <= k < i ==> self.actors@[k] == spec_accumulate_seq(old(self).actors@)[k],
                forall|k: int| 0 <= k < i ==> slot_wf(#[trigger] self.actors@[k]),
                forall|k: int| i <= k < n ==> self.actors@[k] == old(self).actors@[k],
            decreases n - i,
        {
            let slot = self.actors[i];
            match slot {
                Some(a) => {
                    proof {
                        assert(slot_wf(old(self).actors@[i as int]));
                    }
                    self.actors[i] = Some(accumulate(a));
                },
                None => {},
            }
            i = i + 1;
        }
        proof {
            assert(self.actors@ =~= spec_accumulate_seq(old(self).actors@));
        }
    }

    /// The speed governor: horizontal velocity clamped to each actor's
    /// class cap, after accumulation and before commit.
    pub fn max_speed(&mut self)
        requires
            wf_arena(old(self).actors@),
        ensures
            final(self).actors@ == spec_govern_seq(old(self).actors@),
            wf_arena(final(self).actors@),
    {
        let n = self.actors.len();
        let mut i: usize = 0;
        while i < n
            invariant
                0 <= i <= n,
                n == old(self).actors@.len(),
                self.actors@.len() == n,
                wf_arena(old(self).actors@),
                forall|k: int|
                    0 <= k < i ==> self.actors@[k] == spec_govern_seq(old(self).actors@)[k],
                forall|k: int| 0 <= k < i ==> slot_wf(#[trigger] self.actors@[k]),
                forall|k: int| i <= k < n ==> self.actors@[k] == old(self).actors@[k],
            decreases n - i,
        {
            let slot = self.actors[i];
            match slot {
                Some(a) => {
                    proof {
                        assert(slot_wf(old(self).actors@[i as int]));
                    }
                    self.actors[i] = Some(govern(a));
                },
                None => {},
            }
            i = i + 1;
        }
        proof {
            assert(self.actors@ =~= spec_govern_seq(old(self).actors@));
        }
    }

    /// The commit stage: while running, each actor's velocity becomes the
    /// desired translation for the physics engine; a no-op while paused.
    pub fn kinematic_apply_velocity(&mut self, ctx: TickCtx)
        requires
            wf_arena(old(self).actors@),
        ensures
            final(self).actors@ == spec_commit_seq(old(self).actors@, ctx),
            wf_arena(final(self).actors@),
    {
        let n = self.actors.len();
        let mut i: usize = 0;
        while i < n
            invariant
                0 <= i <= n,
                n == old(self).actors@.len(),
                self.actors@.len() == n,
                wf_arena(old(self).actors@),
                forall|k: int|
                    0 <= k < i ==> self.actors@[k] == spec_commit_seq(old(self).actors@, ctx)[k],
                forall|k: int| 0 <= k < i ==> slot_wf(#[trigger] self.actors@[k]),
                forall|k: int| i <= k < n ==> self.actors@[k] == old(self).actors@[k],
            decreases n - i,
        {
            let slot = self.actors[i];
            match slot {
                Some(a) => {
                    proof {
                        assert(slot_wf(old(self).actors@[i as int]));
                    }
                    self.actors[i] = Some(commit(a, !ctx.paused));
                },
                None => {},
            }
            i = i + 1;
        }
        proof {
            assert(self.actors@ =~= spec_commit_seq(old(self).actors@, ctx));
        }
    }

    /// The kill responders: scans every contact report against the arena as
    /// it stood when the stage began, then attaches the death markers in one
    /// drain — so a kill decided this tick never changes another kill
    /// decision made the same tick.
    pub fn resolve_kills(&mut self, reports: &Vec<ContactReport>)
        requires
            wf_arena(old(self).actors@),
            reports@.len() == old(self).actors@.len(),
        ensures
            final(self).actors@ == spec_kill_seq(old(self).actors@, reports@),
            wf_arena(final(self).actors@),
    {
        let n = self.actors.len();
        let mut killed: Vec<bool> = Vec::new();
        let mut t: usize = 0;
        while t < n
            invariant
                0 <= t <= n,
                self.actors@ == old(self).actors@,
                n == self.actors@.len(),
                reports@.len() == n,
                killed@.len() == t,
                forall|k: int|
                    0 <= k < t ==> killed@[k] == spec_kill_target(old(self).actors@, reports@, k),
            decreases n - t,
        {
            let kc = kill_check(&self.actors, reports, t);
            killed.push(kc);
            t = t + 1;
        }
        let mut i: usize = 0;
        while i < n
            invariant
                0 <= i <= n,
                n == old(self).actors@.len(),
                self.actors@.len() == n,
                killed@.len() == n,
                wf_arena(old(self).actors@),
                forall|k: int|
                    0 <= k < n ==> killed@[k] == spec_kill_target(old(self).actors@, reports@, k),
                forall|k: int|
                    0 <= k < i ==> self.actors@[k] == spec_kill_seq(old(self).actors@, reports@)[k],
                forall|k: int| 0 <= k < i ==> slot_wf(#[trigger] self.actors@[k]),
                forall|k: int| i <= k < n ==> self.actors@[k] == old(self).actors@[k],
            decreases n - i,
        {
            let slot = self.actors[i];
            match slot {
                Some(a) => {
                    proof {
                        assert(slot_wf(old(self).actors@[i as int]));
                    }
                    if killed[i] {
                        self.actors[i] = Some(Actor { dead: true, ..a });
                    }
                },
                None => {},
            }
            i = i + 1;
        }
        proof {
            assert(self.actors@ =~= spec_kill_seq(old(self).actors@, reports@));
        }
    }

    /// The supplementary wall check: for the one player in the arena (and
    /// only then — with no player or several the rays are not cast), zero
    /// any horizontal motion directed at a wall the rays found.
    pub fn player_wall_raycast(&mut self, hits: &Vec<WallHit>)
        requires
            wf_arena(old(self).actors@),
        ensures
            final(self).actors@ == spec_wall_seq(old(self).actors@, hits@),
            wf_arena(final(self).actors@),
    {
        let n = self.actors.len();
        let mut count: usize = 0;
        let mut first: usize = 0;
        let mut second: usize = 0;
        let mut i: usize = 0;
        while i < n
            invariant
                0 <= i <= n,
                self.actors@ == old(self).actors@,
                n == self.actors@.len(),
                count <= i,
                count == 0 ==> forall|k: int|
                    0 <= k < i ==> !slot_is_player(#[trigger] self.actors@[k]),
                count == 1 ==> (first < i && slot_is_player(self.actors@[first as int]) && forall|
                    k: int,
                |
                    0 <= k < i && k != first ==> !slot_is_player(#[trigger] self.actors@[k])),
                count >= 2 ==> (first < i && second < i && first != second && slot_is_player(
                    self.actors@[first as int],
                ) && slot_is_player(self.actors@[second as int])),
            decreases n - i,
        {
            if is_player_slot(&self.actors, i) {
                if count == 0 {
                    first = i;
                } else if count == 1 {
                    second = i;
                }
                count = count + 1;
            }
            i = i + 1;
        }
        if count == 1 {
            proof {
                assert(spec_is_sole_player(old(self).actors@, first as int));
            }
            let slot = self.actors[first];
            match slot {
                Some(a) => {
                    proof {
                        assert(slot_wf(old(self).actors@[first as int]));
                    }
                    self.actors[first] = Some(wall_stop(a, hits));
                },
                None => {
                    proof {
                        assert(false);
                    }
                },
            }
            proof {
                assert forall|k: int| 0 <= k < n && k != first implies !spec_is_sole_player(
                    old(self).actors@,
                    k,
                ) by {
                    assert(!slot_is_player(old(self).actors@[k]));
                }
                assert(self.actors@ =~= spec_wall_seq(old(self).actors@, hits@));
            }
        } else {
            proof {
                assert forall|k: int| 0 <= k < n implies !spec_is_sole_player(
                    old(self).actors@,
                    k,
                ) by {
                    if count == 0 {
                        assert(!slot_is_player(old(self).actors@[k]));
                    } else {
                        if k == first {
                            assert(slot_is_player(old(self).actors@[second as int]));
                        } else {
                            assert(slot_is_player(old(self).actors@[first as int]));
                        }
                    }
                }
                assert(self.actors@ =~= spec_wall_seq(old(self).actors@, hits@));
            }
        }
    }

    /// Runs one simulation tick, in the pipeline's fixed stage order, against
    /// this tick's input snapshot, contact reports, wall-ray hits and
    /// engine-owned positions (one report and one position per arena slot).
    pub fn run_tick(
        &mut self,
        ctx: TickCtx,
        input: RawInput,
        reports: &Vec<ContactReport>,
        hits: &Vec<WallHit>,
        positions: &Vec<Vec2>,
    )
        requires
            wf_arena(old(self).actors@),
            reports@.len() == old(self).actors@.len(),
            positions@.len() == old(self).actors@.len(),
        ensures
            final(self).actors@ == spec_tick(
                old(self).actors@,
                ctx,
                input,
                reports@,
                hits@,
                positions@,
            ),
            final(self).actors@.len() == old(self).actors@.len(),
            wf_arena(final(self).actors@),
    {
        self.sweep_dead();
        self.clear_acceleration();
        self.player_movement(input, ctx, reports);
        self.kinematic_gravity(ctx, reports);
        self.kinematic_apply_friction();
        self.resolve_kills(reports);
        self.player_bounce(reports);
        self.enemy_bounce_off_obstacle(reports);
        self.player_wall_raycast(hits);
        self.actor_fall_out(ctx, positions);
        self.move_enemies();
        self.kinematic_set_velocity();
        self.max_speed();
        self.kinematic_apply_velocity(ctx);
    }
}

pub open spec fn slot_is_enemy(slot: Option<Actor>) -> bool {
    match slot {
        Some(a) => a.class.is_enemy(),
        None => false,
    }
}

/// `t` is killed by some contact among actor `i`'s first `j` contacts, or by
/// any contact of an earlier actor's report.
spec fn spec_kill_upto(
    s: Seq<Option<Actor>>,
    reports: Seq<ContactReport>,
    t: int,
    i: int,
    j: int,
) -> bool {
    ||| exists|a: int| 0 <= a < i && #[trigger] spec_report_kills(s, reports, a, t)
    ||| exists|b: int|
        0 <= b < j && (#[trigger] spec_contact_kill(s, i, reports[i].contacts@[b])) == Some(t)
}

fn is_player_slot(actors: &Vec<Option<Actor>>, i: usize) -> (r: bool)
    requires
        i < actors@.len(),
    ensures
        r == slot_is_player(actors@[i as int]),
{
    let slot = actors[i];
    match slot {
        Some(a) => match a.class {
            ActorClass::Player(_) => true,
            _ => false,
        },
        None => false,
    }
}

fn is_enemy_slot(actors: &Vec<Option<Actor>>, i: usize) -> (r: bool)
    requires
        i < actors@.len(),
    ensures
        r == slot_is_enemy(actors@[i as int]),
{
    let slot = actors[i];
    match slot {
        Some(a) => match a.class {
            ActorClass::Enemy => true,
            ActorClass::EnemyMover(_) => true,
            _ => false,
        },
        None => false,
    }
}

/// Executable twin of [`spec_contact_kill`].
fn contact_kill_at(actors: &Vec<Option<Actor>>, i: usize, c: Contact) -> (r: Option<usize>)
    requires
        i < actors@.len(),
    ensures
        match r {
            Some(u) => spec_contact_kill(actors@, i as int, c) == Some(u as int),
            None => spec_contact_kill(actors@, i as int, c) is None,
        },
{
    let slot = actors[i];
    match slot {
        Some(a) => match c.other {
            ContactOther::PlayerKillHazard => match a.class {
                ActorClass::Player(_) => Some(i),
                _ => None,
            },
            ContactOther::EnemyAttackHitbox { parent } => match a.class {
                ActorClass::Player(_) => Some(parent),
                _ => None,
            },
            ContactOther::KinematicActor { index } => {
                let enemy = match a.class {
                    ActorClass::Enemy => true,
                    ActorClass::EnemyMover(_) => true,
                    _ => false,
                };
                if enemy && index < actors.len() && is_player_slot(actors, index) {
                    Some(index)
                } else {
                    None
                }
            },
            _ => None,
        },
        None => None,
    }
}

/// Decides whether any report this tick kills actor `t`.
fn kill_check(actors: &Vec<Option<Actor>>, reports: &Vec<ContactReport>, t: usize) -> (r: bool)
    requires
        reports@.len() == actors@.len(),
    ensures
        r == spec_kill_target(actors@, reports@, t as int),
{
    let ghost s = actors@;
    let ghost rep = reports@;
    let ghost ti = t as int;
    let n = actors.len();
    let mut found = false;
    let mut i: usize = 0;
    while i < n
        invariant
            0 <= i <= n,
            n == s.len(),
            rep.len() == n,
            s == actors@,
            rep == reports@,
            ti == t as int,
            found == spec_kill_upto(s, rep, ti, i as int, 0),
        decreases n - i,
    {
        let m = reports[i].contacts.len();
        let mut j: usize = 0;
        while j < m
            invariant
                0 <= i < n,
                0 <= j <= m,
                n == s.len(),
                rep.len() == n,
                s == actors@,
                rep == reports@,
                ti == t as int,
                m == rep[i as int].contacts@.len(),
                found == spec_kill_upto(s, rep, ti, i as int, j as int),
            decreases m - j,
        {
            let c = reports[i].contacts[j];
            let target = contact_kill_at(actors, i, c);
            let hit = match target {
                Some(u) => u == t,
                None => false,
            };
            proof {
                let ii = i as int;
                let jj = j as int;
                let cj = rep[ii].contacts@[jj];
                assert(hit == (spec_contact_kill(s, ii, cj) == Some(ti)));
                assert(spec_kill_upto(s, rep, ti, ii, jj + 1) == (spec_kill_upto(s, rep, ti, ii, jj)
                    || spec_contact_kill(s, ii, cj) == Some(ti))) by {
                    if spec_kill_upto(s, rep, ti, ii, jj + 1) {
                        if exists|a: int| 0 <= a < ii && #[trigger] spec_report_kills(s, rep, a, ti) {
                            assert(spec_kill_upto(s, rep, ti, ii, jj));
                        } else {
                            let b = choose|b: int|
                                0 <= b < jj + 1 && (#[trigger] spec_contact_kill(
                                    s,
                                    ii,
                                    rep[ii].contacts@[b],
                                )) == Some(ti);
                            if b < jj {
                                assert(spec_kill_upto(s, rep, ti, ii, jj));
                            } else {
                                assert(spec_contact_kill(s, ii, cj) == Some(ti));
                            }
                        }
                    }
                    if spec_kill_upto(s, rep, ti, ii, jj) {
                        assert(spec_kill_upto(s, rep, ti, ii, jj + 1));
                    }
                    if spec_contact_kill(s, ii, cj) == Some(ti) {
                        assert(0 <= jj < jj + 1 && (spec_contact_kill(s, ii, rep[ii].contacts@[jj]))
                            == Some(ti));
                        assert(spec_kill_upto(s, rep, ti, ii, jj + 1));
                    }
                }
            }
            found = found || hit;
            j = j + 1;
        }
        proof {
            let ii = i as int;
            let mm = m as int;
            assert(spec_kill_upto(s, rep, ti, ii, mm) == spec_kill_upto(s, rep, ti, ii + 1, 0)) by {
                if spec_kill_upto(s, rep, ti, ii, mm) {
                    if exists|a: int| 0 <= a < ii && #[trigger] spec_report_kills(s, rep, a, ti) {
                        let a = choose|a: int|
                            0 <= a < ii && #[trigger] spec_report_kills(s, rep, a, ti);
                        assert(0 <= a < ii + 1 && spec_report_kills(s, rep, a, ti));
                    } else {
                        assert(exists|b: int|
                            0 <= b < mm && (#[trigger] spec_contact_kill(s, ii, rep[ii].contacts@[b]))
                                == Some(ti));
                        assert(spec_report_kills(s, rep, ii, ti));
                        assert(0 <= ii < ii + 1 && spec_report_kills(s, rep, ii, ti));
                    }
                    assert(spec_kill_upto(s, rep, ti, ii + 1, 0));
                }
                if spec_kill_upto(s, rep, ti, ii + 1, 0) {
                    let a = choose|a: int|
                        0 <= a < ii + 1 && #[trigger] spec_report_kills(s, rep, a, ti);
                    if a < ii {
                        assert(spec_kill_upto(s, rep, ti, ii, mm));
                    } else {
                        assert(spec_report_kills(s, rep, ii, ti));
                        let b = choose|b: int|
                            0 <= b < rep[ii].contacts@.len() && spec_contact_kill(
                                s,
                                ii,
                                rep[ii].contacts@[b],
                            ) == Some(ti);
                        assert(0 <= b < mm && spec_contact_kill(s, ii, rep[ii].contacts@[b])
                            == Some(ti));
                        assert(spec_kill_upto(s, rep, ti, ii, mm));
                    }
                }
            }
        }
        i = i + 1;
    }
    proof {
        assert(spec_kill_upto(s, rep, ti, n as int, 0) == spec_kill_target(s, rep, ti)) by {
            if spec_kill_upto(s, rep, ti, n as int, 0) {
                let a = choose|a: int|
                    0 <= a < n as int && #[trigger] spec_report_kills(s, rep, a, ti);
                assert(spec_kill_target(s, rep, ti));
            }
            if spec_kill_target(s, rep, ti) {
                let a = choose|a: int| 0 <= a < s.len() && #[trigger] spec_report_kills(s, rep, a, ti);
                assert(spec_kill_upto(s, rep, ti, n as int, 0));
            }
        }
    }
    found
}

/// One whole simulation tick: the committed stage order of the pipeline.
/// Death markers from last tick are swept first; acceleration is rebuilt
/// from zero; the input resolver and force integrators run; collision
/// responses land before velocity is finalized so a kill-bounce or
/// wall-stop is never overridden; the governor caps horizontal speed; and
/// the commit stage hands the result to the physics engine unless paused.
pub open spec fn spec_tick(
    s: Seq<Option<Actor>>,
    ctx: TickCtx,
    input: RawInput,
    reports: Seq<ContactReport>,
    hits: Seq<WallHit>,
    positions: Seq<Vec2>,
) -> Seq<Option<Actor>> {
    let swept = spec_sweep_seq(s);
    let cleared = spec_clear_seq(swept);
    let resolved = spec_input_seq(cleared, reports, input, ctx);
    let pulled = spec_gravity_seq(resolved, reports, ctx);
    let slowed = spec_friction_seq(pulled);
    let marked = spec_kill_seq(slowed, reports);
    let bounced = spec_bounce_seq(marked, reports);
    let flipped = spec_flip_seq(bounced, reports);
    let stopped = spec_wall_seq(flipped, hits);
    let culled = spec_fall_seq(stopped, positions, ctx);
    let thrust = spec_patrol_seq(culled);
    let moved = spec_accumulate_seq(thrust);
    let governed = spec_govern_seq(moved);
    spec_commit_seq(governed, ctx)
}

} // verus!
