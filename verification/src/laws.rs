//! The movement core's guarantees, stated and proved over the stage and
//! tick specifications.

use vstd::prelude::*;
use vstd::arithmetic::div_mod::{
    lemma_div_is_ordered, lemma_div_multiples_vanish_fancy, lemma_div_of0,
};
use crate::units::{
    FIXED_ONE, FRICTION_NUM, FRICTION_DEN, JUMP_MAX_DURATION_MS,
    WALL_NORMAL_BAND_LO, WALL_NORMAL_BAND_HI,
};
use crate::vec2::Vec2;
use crate::actor::{Actor, ActorClass, PlayerState, MoverState};
use crate::contact::{ContactReport, WallHit};
use crate::input::{RawInput, spec_resolve_input, spec_jump_hold_accel};
use crate::stages::{
    spec_gravity, spec_friction64, spec_govern, spec_flip_once, spec_patrol_flip,
};
use crate::world::{
    TickCtx, spec_tick, spec_kill_seq, spec_kill_target, spec_report_kills, spec_contact_kill,
    spec_sweep_seq, spec_clear_seq, spec_input_seq, spec_gravity_seq, spec_friction_seq,
    spec_bounce_seq, spec_flip_seq, spec_wall_seq, spec_fall_seq, spec_patrol_seq,
    spec_accumulate_seq, spec_govern_seq, spec_commit_seq, slot_is_player,
};

verus! {

/// The actor in a slot is marked dead.
pub open spec fn slot_dead(slot: Option<Actor>) -> bool {
    match slot {
        Some(a) => a.dead,
        None => false,
    }
}

/// Whatever translation the slot's actor has committed, if any.
pub open spec fn slot_committed(slot: Option<Actor>) -> Option<Vec2> {
    match slot {
        Some(a) => a.committed,
        None => None,
    }
}

/// The slot's horizontal velocity respects its actor's class cap.
pub open spec fn slot_velocity_capped(slot: Option<Actor>) -> bool {
    match slot {
        Some(a) => -a.class.spec_speed_cap() <= a.vel.x <= a.class.spec_speed_cap(),
        None => true,
    }
}

/// Any translation the slot's actor has committed respects its class cap.
pub open spec fn slot_commit_capped(slot: Option<Actor>) -> bool {
    match slot {
        Some(a) => match a.committed {
            Some(v) => -a.class.spec_speed_cap() <= v.x <= a.class.spec_speed_cap(),
            None => true,
        },
        None => true,
    }
}

/// A grounded actor that is not moving upward leaves the gravity integrator
/// fully settled: vertical velocity and vertical acceleration are exactly
/// zero, so no residual downward creep is re-applied next tick.  The one
/// family of states excluded is a grounded actor given a fresh vertical
/// impulse this very tick while already at rest (vertical velocity zero and
/// a nonzero vertical acceleration, as on the tick a jump starts): gravity
/// deliberately leaves such an impulse alone.
pub proof fn lemma_grounded_settles(a: Actor, running: bool)
    requires
        running,
        a.vel.y <= 0,
        a.vel.y < 0 || a.acc.y == 0,
    ensures
        spec_gravity(a, true, running).vel.y == 0,
        spec_gravity(a, true, running).acc.y == 0,
{
}

/// The jump impulse curve is fully decayed at and beyond the maximum hold
/// duration: it contributes exactly zero.
pub proof fn lemma_jump_curve_exhausted(elapsed_ms: int)
    requires
        elapsed_ms >= JUMP_MAX_DURATION_MS,
    ensures
        spec_jump_hold_accel(elapsed_ms) == 0,
{
}

/// A player who merely holds jump past the maximum duration since the
/// recorded jump start gets no vertical acceleration from the resolver:
/// the impulse is gone until a new jump is pressed.
pub proof fn lemma_jump_hold_past_duration(
    a: Actor,
    p: PlayerState,
    grounded: bool,
    input: RawInput,
    now_ms: u64,
    dt_ms: u64,
)
    requires
        a.class == ActorClass::Player(p),
        !input.jump_pressed,
        p.jump_start_ms <= now_ms,
        now_ms - p.jump_start_ms >= JUMP_MAX_DURATION_MS,
    ensures
        spec_resolve_input(a, grounded, input, now_ms, dt_ms).acc.y == 0,
{
}

/// The speed governor's whole guarantee: whatever the integrators and
/// responders accumulated, horizontal velocity leaves the governor within
/// the actor-class cap in absolute value.  Vertical velocity is untouched.
pub proof fn lemma_governor_caps(a: Actor)
    ensures
        -a.class.spec_speed_cap() <= spec_govern(a).vel.x <= a.class.spec_speed_cap(),
        spec_govern(a).vel.y == a.vel.y,
{
}

/// One tick of friction strictly shrinks a nonzero horizontal speed toward
/// zero and never flips its sign: monotone decay without overshoot.
pub proof fn lemma_friction_decays(v: i64)
    requires
        v != 0,
    ensures
        v > 0 ==> 0 <= spec_friction64(v as int) < v,
        v < 0 ==> v < spec_friction64(v as int) <= 0,
{
    if v > 0 {
        lemma_friction_magnitude(v as int);
    } else {
        lemma_friction_magnitude(-(v as int));
    }
}

/// Friction on a positive magnitude lands in [0, m).
proof fn lemma_friction_magnitude(m: int)
    requires
        m > 0,
    ensures
        0 <= m * (FRICTION_NUM as int) / (FRICTION_DEN as int) < m,
{
    let num = FRICTION_NUM as int;
    let den = FRICTION_DEN as int;
    assert(m * num <= den * (m - 1) + (den - 1));
    lemma_div_is_ordered(m * num, den * (m - 1) + (den - 1), den);
    lemma_div_multiples_vanish_fancy(m - 1, den - 1, den);
    lemma_div_of0(den);
    lemma_div_is_ordered(0, m * num, den);
}

/// A player with at least one player-kill-hazard contact in its report is
/// marked dead by the kill responders.  The marker is a presence flag, so
/// however many hazard contacts the report holds, the tick ends with
/// exactly one marker on the player, attached at most once per life.
pub proof fn lemma_hazard_kills_player(
    s: Seq<Option<Actor>>,
    reports: Seq<ContactReport>,
    p: int,
    j: int,
)
    requires
        0 <= p < s.len(),
        reports.len() == s.len(),
        slot_is_player(s[p]),
        0 <= j < reports[p].contacts@.len(),
        reports[p].contacts@[j].other is PlayerKillHazard,
    ensures
        slot_dead(spec_kill_seq(s, reports)[p]),
{
    assert(spec_contact_kill(s, p, reports[p].contacts@[j]) == Some(p));
    assert(spec_report_kills(s, reports, p, p));
    assert(spec_kill_target(s, reports, p));
}

/// The wall-normal tolerance band decides patrol reversal: a normal within
/// the band of -1 flips the direction to -1, within the band of +1 to +1,
/// and any other normal leaves the direction unchanged.
pub proof fn lemma_flip_band(dir: int, nx: int)
    ensures
        -WALL_NORMAL_BAND_HI < nx < -WALL_NORMAL_BAND_LO ==> spec_flip_once(dir, nx) == -1,
        WALL_NORMAL_BAND_LO < nx < WALL_NORMAL_BAND_HI ==> spec_flip_once(dir, nx) == 1,
        !(-WALL_NORMAL_BAND_HI < nx < -WALL_NORMAL_BAND_LO) && !(WALL_NORMAL_BAND_LO < nx
            < WALL_NORMAL_BAND_HI) ==> spec_flip_once(dir, nx) == dir,
        spec_flip_once(dir, -(FIXED_ONE as int)) == -1,
        spec_flip_once(dir, FIXED_ONE as int) == 1,
{
}

/// A mover enemy whose report holds a single contact leaves the responders
/// with its patrol direction decided by that contact's normal alone.
pub proof fn lemma_single_contact_flip(a: Actor, m: MoverState, report: ContactReport)
    requires
        a.class == ActorClass::EnemyMover(m),
        report.contacts@.len() == 1,
    ensures
        spec_patrol_flip(a, report).class == ActorClass::EnemyMover(
            MoverState {
                dir: spec_flip_once(m.dir as int, report.contacts@[0].normal.x as int) as i64,
            },
        ),
{
    assert(crate::stages::spec_flip_fold(m.dir as int, report.contacts@, 1)
        == spec_flip_once(crate::stages::spec_flip_fold(m.dir as int, report.contacts@, 0),
            report.contacts@[0].normal.x as int));
}

/// While paused, a tick changes no surviving actor's committed translation:
/// the world stays visibly frozen however much acceleration bookkeeping
/// still runs.  (A slot can only go vacant — the sweep of markers attached
/// before the pause — never change its committed value; over repeated
/// paused ticks this invariant composes.)
pub proof fn lemma_paused_commit_frozen(
    s: Seq<Option<Actor>>,
    ctx: TickCtx,
    input: RawInput,
    reports: Seq<ContactReport>,
    hits: Seq<WallHit>,
    positions: Seq<Vec2>,
    i: int,
)
    requires
        ctx.paused,
        0 <= i < s.len(),
        reports.len() == s.len(),
        positions.len() == s.len(),
    ensures
        match spec_tick(s, ctx, input, reports, hits, positions)[i] {
            Some(a2) => match s[i] {
                Some(a1) => a2.committed == a1.committed,
                None => false,
            },
            None => true,
        },
{
    let swept = spec_sweep_seq(s);
    let cleared = spec_clear_seq(swept);
    let resolved = spec_input_seq(cleared, reports, input, ctx);
    let pulled = spec_gravity_seq(resolved, reports, ctx);
    let slowed = spec_friction_seq(pulled);
    let marked = spec_kill_seq(slowed, reports);
    let bounced = spec_bounce_seq(marked, reports);
    let flipped = spec_flip_seq(bounced, reports);
    let stopped = spec_wall_seq(flipped, hits);
    let culled = spec_fall_seq(stopped, positions, ctx);
    let thrust = spec_patrol_seq(culled);
    let moved = spec_accumulate_seq(thrust);
    let governed = spec_govern_seq(moved);
    let done = spec_commit_seq(governed, ctx);
    assert(resolved == cleared);
    match s[i] {
        Some(a1) => {
            if a1.dead {
                assert(swept[i] is None);
                assert(done[i] is None);
            } else {
                assert(slot_committed(cleared[i]) == a1.committed);
                assert(slot_committed(pulled[i]) == a1.committed);
                assert(slot_committed(slowed[i]) == a1.committed);
                assert(slot_committed(marked[i]) == a1.committed);
                assert(slot_committed(bounced[i]) == a1.committed);
                assert(slot_committed(flipped[i]) == a1.committed);
                assert(slot_committed(stopped[i]) == a1.committed);
                assert(slot_committed(culled[i]) == a1.committed);
                assert(slot_committed(thrust[i]) == a1.committed);
                assert(slot_committed(moved[i]) == a1.committed);
                assert(slot_committed(governed[i]) == a1.committed);
                assert(slot_committed(done[i]) == a1.committed);
                assert(done[i] is Some);
            }
        },
        None => {
            assert(done[i] is None);
        },
    }
}

/// Every tick ends with every actor's horizontal velocity inside its class
/// cap — paused or not, for any inputs, contacts and accumulated forces —
/// because the governor is the last stage to touch velocity.
pub proof fn lemma_tick_velocity_capped(
    s: Seq<Option<Actor>>,
    ctx: TickCtx,
    input: RawInput,
    reports: Seq<ContactReport>,
    hits: Seq<WallHit>,
    positions: Seq<Vec2>,
    i: int,
)
    requires
        0 <= i < s.len(),
        reports.len() == s.len(),
        positions.len() == s.len(),
    ensures
        slot_velocity_capped(spec_tick(s, ctx, input, reports, hits, positions)[i]),
{
    let governed = spec_govern_seq(
        spec_accumulate_seq(
            spec_patrol_seq(
                spec_fall_seq(
                    spec_wall_seq(
                        spec_flip_seq(
                            spec_bounce_seq(
                                spec_kill_seq(
                                    spec_friction_seq(
                                        spec_gravity_seq(
                                            spec_input_seq(
                                                spec_clear_seq(spec_sweep_seq(s)),
                                                reports,
                                                input,
                                                ctx,
                                            ),
                                            reports,
                                            ctx,
                                        ),
                                    ),
                                    reports,
                                ),
                                reports,
                            ),
                            reports,
                        ),
                        hits,
                    ),
                    positions,
                    ctx,
                ),
            ),
        ),
    );
    let done = spec_commit_seq(governed, ctx);
    match governed[i] {
        Some(g) => {
            assert(slot_velocity_capped(governed[i]));
            assert(slot_velocity_capped(done[i]));
        },
        None => {
            assert(done[i] is None);
        },
    }
}

/// Committed translations stay inside the class caps across any tick: a
/// running tick commits governed velocity, a paused tick commits nothing.
/// Starting from spawn (zero or no translation committed), no sequence of
/// ticks can ever hand the physics engine a horizontal step beyond the cap.
pub proof fn lemma_commit_stays_capped(
    s: Seq<Option<Actor>>,
    ctx: TickCtx,
    input: RawInput,
    reports: Seq<ContactReport>,
    hits: Seq<WallHit>,
    positions: Seq<Vec2>,
    i: int,
)
    requires
        0 <= i < s.len(),
        reports.len() == s.len(),
        positions.len() == s.len(),
        slot_commit_capped(s[i]),
    ensures
        slot_commit_capped(spec_tick(s, ctx, input, reports, hits, positions)[i]),
{
    if ctx.paused {
        lemma_paused_commit_frozen(s, ctx, input, reports, hits, positions, i);
        lemma_class_preserved(s, ctx, input, reports, hits, positions, i);
    } else {
        let governed = spec_govern_seq(
            spec_accumulate_seq(
                spec_patrol_seq(
                    spec_fall_seq(
                        spec_wall_seq(
                            spec_flip_seq(
                                spec_bounce_seq(
                                    spec_kill_seq(
                                        spec_friction_seq(
                                            spec_gravity_seq(
                                                spec_input_seq(
                                                    spec_clear_seq(spec_sweep_seq(s)),
                                                    reports,
                                                    input,
                                                    ctx,
                                                ),
                                                reports,
                                                ctx,
                                            ),
                                        ),
                                        reports,
                                    ),
                                    reports,
                                ),
                                reports,
                            ),
                            hits,
                        ),
                        positions,
                        ctx,
                    ),
                ),
            ),
        );
        let done = spec_commit_seq(governed, ctx);
        match governed[i] {
            Some(g) => {
                assert(slot_commit_capped(done[i]));
            },
            None => {
                assert(done[i] is None);
            },
        }
    }
}

/// A tick never changes an actor's class (and so never its speed cap).
proof fn lemma_class_preserved(
    s: Seq<Option<Actor>>,
    ctx: TickCtx,
    input: RawInput,
    reports: Seq<ContactReport>,
    hits: Seq<WallHit>,
    positions: Seq<Vec2>,
    i: int,
)
    requires
        0 <= i < s.len(),
        reports.len() == s.len(),
        positions.len() == s.len(),
    ensures
        match spec_tick(s, ctx, input, reports, hits, positions)[i] {
            Some(a2) => match s[i] {
                Some(a1) => (a2.class is Player) == (a1.class is Player) && (a2.class is Enemy)
                    == (a1.class is Enemy) && (a2.class is EnemyMover) == (a1.class is EnemyMover),
                None => false,
            },
            None => true,
        },
{
    let swept = spec_sweep_seq(s);
    let cleared = spec_clear_seq(swept);
    let resolved = spec_input_seq(cleared, reports, input, ctx);
    let pulled = spec_gravity_seq(resolved, reports, ctx);
    let slowed = spec_friction_seq(pulled);
    let marked = spec_kill_seq(slowed, reports);
    let bounced = spec_bounce_seq(marked, reports);
    let flipped = spec_flip_seq(bounced, reports);
    let stopped = spec_wall_seq(flipped, hits);
    let culled = spec_fall_seq(stopped, positions, ctx);
    let thrust = spec_patrol_seq(culled);
    let moved = spec_accumulate_seq(thrust);
    let governed = spec_govern_seq(moved);
    let done = spec_commit_seq(governed, ctx);
    match s[i] {
        Some(a1) => {
            if a1.dead {
                assert(done[i] is None);
            } else {
                assert(done[i] is Some);
            }
        },
        None => {
            assert(done[i] is None);
        },
    }
}

} // verus!
