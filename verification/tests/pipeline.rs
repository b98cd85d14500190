//! End-to-end tick scenarios through [`World::run_tick`]: jumping, decay,
//! friction runs, patrol capping, kills, bounces, pausing and despawn.

use kinematic_core::actor::{Actor, ActorClass};
use kinematic_core::contact::{Contact, ContactOther, ContactReport, WallHit};
use kinematic_core::input::RawInput;
use kinematic_core::vec2::Vec2;
use kinematic_core::world::{TickCtx, World};

fn running(now_ms: u64, dt_ms: u64) -> TickCtx {
    TickCtx { paused: false, now_ms, dt_ms }
}

fn paused(now_ms: u64, dt_ms: u64) -> TickCtx {
    TickCtx { paused: true, now_ms, dt_ms }
}

fn grounded_report() -> ContactReport {
    ContactReport { grounded: true, contacts: vec![] }
}

fn airborne_report() -> ContactReport {
    ContactReport { grounded: false, contacts: vec![] }
}

fn no_hits() -> Vec<WallHit> {
    vec![]
}

fn origin_positions(n: usize) -> Vec<Vec2> {
    let mut v = Vec::new();
    for _ in 0..n {
        v.push(Vec2 { x: 0, y: 0 });
    }
    v
}

fn jump_input() -> RawInput {
    RawInput { left: false, right: false, jump_pressed: true, jump_held: true }
}

fn hold_input() -> RawInput {
    RawInput { left: false, right: false, jump_pressed: false, jump_held: true }
}

fn actor(world: &World, i: usize) -> Actor {
    world.actor_at(i).expect("actor missing")
}

#[test]
fn jump_tick_records_start_and_full_impulse() {
    let mut world = World::new();
    let p = world.spawn(Actor::player());
    let reports = vec![grounded_report()];
    world.run_tick(running(1000, 16), jump_input(), &reports, &no_hits(), &origin_positions(1));
    let a = actor(&world, p);
    assert_eq!(a.acc.y, 400);
    assert_eq!(a.vel.y, 400);
    assert_eq!(a.committed, Some(Vec2 { x: 0, y: 400 }));
    match a.class {
        ActorClass::Player(st) => assert_eq!(st.jump_start_ms, 1000),
        _ => panic!("player expected"),
    }
}

#[test]
fn held_jump_decays_and_gravity_takes_over() {
    let mut world = World::new();
    let p = world.spawn(Actor::player());
    let grounded = vec![grounded_report()];
    let airborne = vec![airborne_report()];
    let pos = origin_positions(1);
    // tick 1 at t=1000: jump starts, full 400 impulse
    world.run_tick(running(1000, 16), jump_input(), &grounded, &no_hits(), &pos);
    // tick 2 at t=1250: curve gives 400 * (750/1000)^12 = 12, gravity -100
    world.run_tick(running(1250, 250), hold_input(), &airborne, &no_hits(), &pos);
    let a = actor(&world, p);
    assert_eq!(a.acc.y, 12 - 100);
    assert_eq!(a.vel.y, 400 + 12 - 100);
    assert_eq!(a.committed, Some(Vec2 { x: 0, y: 312 }));
    // tick 3 at t=1500: the curve has truncated to zero, only gravity pulls
    world.run_tick(running(1500, 250), hold_input(), &airborne, &no_hits(), &pos);
    assert_eq!(actor(&world, p).acc.y, -100);
    assert_eq!(actor(&world, p).vel.y, 312 - 100);
}

#[test]
fn friction_strictly_decays_horizontal_speed() {
    let mut world = World::new();
    let mut moving = Actor::player();
    moving.vel = Vec2 { x: 300, y: 0 };
    let p = world.spawn(moving);
    let reports = vec![grounded_report()];
    let pos = origin_positions(1);
    let mut last = 300i64;
    let mut expected_prefix = Vec::new();
    for tick in 0..40u64 {
        world.run_tick(running(tick * 16, 16), RawInput::idle(), &reports, &no_hits(), &pos);
        let vx = actor(&world, p).vel.x;
        if tick < 6 {
            expected_prefix.push(vx);
        }
        // monotone decay toward zero, never overshooting the sign
        if last > 0 {
            assert!(vx < last, "tick {}: {} not below {}", tick, vx, last);
        } else {
            assert_eq!(vx, 0);
        }
        assert!(vx >= 0);
        last = vx;
    }
    assert_eq!(expected_prefix, vec![250, 208, 173, 144, 120, 100]);
    assert_eq!(last, 0);
}

#[test]
fn patrolling_enemy_caps_at_enemy_speed_for_hundred_ticks() {
    let mut world = World::new();
    let e = world.spawn(Actor::enemy_mover());
    let reports = vec![grounded_report()];
    let pos = origin_positions(1);
    for tick in 0..100u64 {
        world.run_tick(running(tick * 16, 16), RawInput::idle(), &reports, &no_hits(), &pos);
        let a = actor(&world, e);
        // thrust accumulates every tick, yet the governor holds the line
        assert!(a.vel.x.abs() <= 50, "tick {}: speed {} over the cap", tick, a.vel.x);
        assert_eq!(a.committed, Some(Vec2 { x: 50, y: 0 }));
    }
}

#[test]
fn hazard_contact_marks_player_dead_once() {
    let mut world = World::new();
    let p = world.spawn(Actor::player());
    // several hazard contacts in one tick still mean one marker: dead is a flag
    let hazard = Contact { other: ContactOther::PlayerKillHazard, normal: Vec2 { x: 0, y: 1000 } };
    let reports = vec![ContactReport { grounded: true, contacts: vec![hazard, hazard, hazard] }];
    let pos = origin_positions(1);
    world.run_tick(running(0, 16), RawInput::idle(), &reports, &no_hits(), &pos);
    // marked this tick, removed only at the start of the next
    assert!(actor(&world, p).dead);
    world.run_tick(running(16, 16), RawInput::idle(), &vec![grounded_report()], &no_hits(), &pos);
    assert!(world.actor_at(p).is_none());
}

#[test]
fn striking_attack_hitbox_kills_enemy_and_bounces_player() {
    let mut world = World::new();
    let p = world.spawn(Actor::player());
    let e = world.spawn(Actor::enemy());
    let strike = Contact {
        other: ContactOther::EnemyAttackHitbox { parent: e },
        normal: Vec2 { x: 0, y: 1000 },
    };
    let reports = vec![
        ContactReport { grounded: true, contacts: vec![strike] },
        grounded_report(),
    ];
    let pos = origin_positions(2);
    world.run_tick(running(0, 16), RawInput::idle(), &reports, &no_hits(), &pos);
    assert!(actor(&world, e).dead);
    assert!(!actor(&world, p).dead);
    // the reward bounce is upward acceleration, independent of jump state
    assert_eq!(actor(&world, p).committed, Some(Vec2 { x: 0, y: 400 }));
}

#[test]
fn enemy_report_touching_player_kills_player() {
    let mut world = World::new();
    let p = world.spawn(Actor::player());
    let e = world.spawn(Actor::enemy_mover());
    let touch = Contact {
        other: ContactOther::KinematicActor { index: p },
        normal: Vec2 { x: 1000, y: 0 },
    };
    let reports = vec![
        grounded_report(),
        ContactReport { grounded: true, contacts: vec![touch] },
    ];
    let pos = origin_positions(2);
    world.run_tick(running(0, 16), RawInput::idle(), &reports, &no_hits(), &pos);
    assert!(actor(&world, p).dead);
    assert!(!actor(&world, e).dead);
}

#[test]
fn mover_flips_direction_against_wall_and_thrusts_back() {
    let mut world = World::new();
    let e = world.spawn(Actor::enemy_mover());
    // patrolling right into a wall whose normal points back: (-1, 0)
    let wall = Contact { other: ContactOther::Wall, normal: Vec2 { x: -1000, y: 0 } };
    let reports = vec![ContactReport { grounded: true, contacts: vec![wall] }];
    let pos = origin_positions(1);
    world.run_tick(running(0, 16), RawInput::idle(), &reports, &no_hits(), &pos);
    match actor(&world, e).class {
        ActorClass::EnemyMover(m) => assert_eq!(m.dir, -1),
        _ => panic!("mover expected"),
    }
    // next tick's patrol thrust follows the flipped direction
    world.run_tick(running(16, 16), RawInput::idle(), &vec![grounded_report()], &no_hits(), &pos);
    assert!(actor(&world, e).acc.x == -50);
}

#[test]
fn wall_rays_stop_player_clipping() {
    let mut world = World::new();
    let mut moving = Actor::player();
    moving.vel = Vec2 { x: 250, y: 0 };
    let p = world.spawn(moving);
    let reports = vec![grounded_report()];
    let hits = vec![WallHit { wall: true, normal_x: -1000 }];
    let pos = origin_positions(1);
    world.run_tick(running(0, 16), RawInput::idle(), &reports, &hits, &pos);
    let a = actor(&world, p);
    assert_eq!(a.vel.x, 0);
    assert_eq!(a.committed, Some(Vec2 { x: 0, y: 0 }));
}

#[test]
fn paused_ticks_commit_nothing() {
    let mut world = World::new();
    let mut moving = Actor::player();
    moving.vel = Vec2 { x: 120, y: 80 };
    let p = world.spawn(moving);
    let e = world.spawn(Actor::enemy_mover());
    let reports = vec![airborne_report(), grounded_report()];
    let pos = origin_positions(2);
    // one running tick establishes a committed translation
    world.run_tick(running(0, 16), RawInput::idle(), &reports, &no_hits(), &pos);
    let frozen_p = actor(&world, p).committed;
    let frozen_e = actor(&world, e).committed;
    for tick in 1..5u64 {
        world.run_tick(paused(tick * 16, 16), jump_input(), &reports, &no_hits(), &pos);
        // internal bookkeeping may run, but the world stays visibly frozen
        assert_eq!(actor(&world, p).committed, frozen_p);
        assert_eq!(actor(&world, e).committed, frozen_e);
    }
    // the next running tick moves the world again
    world.run_tick(running(100, 16), RawInput::idle(), &reports, &no_hits(), &pos);
    assert_ne!(actor(&world, p).committed, frozen_p);
}

#[test]
fn falling_out_of_the_world_is_fatal() {
    let mut world = World::new();
    let p = world.spawn(Actor::player());
    let reports = vec![airborne_report()];
    let mut pos = origin_positions(1);
    pos[0] = Vec2 { x: 0, y: -26000 };
    world.run_tick(running(0, 16), RawInput::idle(), &reports, &no_hits(), &pos);
    assert!(actor(&world, p).dead);
    world.run_tick(running(16, 16), RawInput::idle(), &reports, &no_hits(), &pos);
    assert!(world.actor_at(p).is_none());
}

#[test]
fn absent_player_is_no_error() {
    let mut world = World::new();
    // an empty arena ticks without complaint (cutscenes have no player)
    world.run_tick(running(0, 16), jump_input(), &vec![], &no_hits(), &vec![]);
    assert!(world.actor_at(0).is_none());
    // two players: the sole-player wall rays stand down, nothing else changes
    let a = world.spawn(Actor::player());
    let b = world.spawn(Actor::player());
    let reports = vec![grounded_report(), grounded_report()];
    let hits = vec![WallHit { wall: true, normal_x: -1000 }];
    world.run_tick(running(0, 16), RawInput::idle(), &reports, &hits, &origin_positions(2));
    assert!(world.actor_at(a).is_some());
    assert!(world.actor_at(b).is_some());
}
