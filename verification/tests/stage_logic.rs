//! Tests of the per-actor stage functions: gravity settling, the input
//! resolver's jump bookkeeping, patrol reversal bands, the wall stop and
//! the speed governor.

use kinematic_core::actor::{Actor, ActorClass, CoyoteTimer, MoverState, PlayerState};
use kinematic_core::contact::{Contact, ContactOther, ContactReport, WallHit};
use kinematic_core::input::{resolve_input, RawInput};
use kinematic_core::stages::{fall_out, gravity, govern, patrol, patrol_flip, wall_stop};
use kinematic_core::vec2::Vec2;

fn player_with(vel: Vec2, acc: Vec2, jump_start_ms: u64, coyote_ms: u64) -> Actor {
    let mut a = Actor::player();
    a.vel = vel;
    a.acc = acc;
    a.class = ActorClass::Player(PlayerState {
        jump_start_ms,
        coyote: CoyoteTimer { elapsed_ms: coyote_ms },
    });
    a
}

fn mover_with_dir(dir: i64) -> Actor {
    let mut a = Actor::enemy_mover();
    a.class = ActorClass::EnemyMover(MoverState { dir });
    a
}

fn contact_with_normal_x(nx: i64) -> Contact {
    Contact { other: ContactOther::Wall, normal: Vec2 { x: nx, y: 0 } }
}

fn report_of(contacts: Vec<Contact>) -> ContactReport {
    ContactReport { grounded: false, contacts }
}

#[test]
fn grounded_falling_actor_settles_to_rest() {
    let mut a = Actor::enemy();
    a.vel = Vec2 { x: 70, y: -150 };
    a.acc = Vec2 { x: 0, y: -100 };
    let r = gravity(a, true, true);
    assert_eq!(r.vel.y, 0);
    assert_eq!(r.acc.y, 0);
    assert_eq!(r.vel.x, 70);
}

#[test]
fn airborne_actor_gains_downward_acceleration() {
    let mut a = Actor::enemy();
    a.acc = Vec2 { x: 0, y: 0 };
    let r = gravity(a, false, true);
    assert_eq!(r.acc.y, -100);
}

#[test]
fn gravity_waits_for_the_coyote_window() {
    // within the grace window gravity leaves the player alone...
    let a = player_with(Vec2 { x: 0, y: 0 }, Vec2 { x: 0, y: 0 }, 0, 20);
    assert_eq!(gravity(a, false, true).acc.y, 0);
    // ...and pulls once the window has elapsed
    let b = player_with(Vec2 { x: 0, y: 0 }, Vec2 { x: 0, y: 0 }, 0, 50);
    assert_eq!(gravity(b, false, true).acc.y, -100);
}

#[test]
fn gravity_frozen_while_paused() {
    let mut a = Actor::enemy();
    a.vel = Vec2 { x: 0, y: -150 };
    let r = gravity(a, true, false);
    assert_eq!(r.vel.y, -150);
}

#[test]
fn jump_press_within_coyote_window_starts_jump() {
    let a = player_with(Vec2 { x: 0, y: 0 }, Vec2 { x: 0, y: 0 }, 0, 30);
    let input = RawInput { left: false, right: false, jump_pressed: true, jump_held: true };
    let r = resolve_input(a, false, input, 2000, 10);
    assert_eq!(r.acc.y, 400);
    match r.class {
        ActorClass::Player(p) => {
            assert_eq!(p.jump_start_ms, 2000);
            // the grace window is spent: no double jump off the same window
            assert_eq!(p.coyote.elapsed_ms, 50);
        },
        _ => panic!("player expected"),
    }
}

#[test]
fn jump_press_after_coyote_window_does_nothing() {
    let a = player_with(Vec2 { x: 0, y: 0 }, Vec2 { x: 0, y: 0 }, 0, 10);
    let input = RawInput { left: false, right: false, jump_pressed: true, jump_held: true };
    // 45 ms of airborne time push the timer past the 50 ms window
    let r = resolve_input(a, false, input, 2000, 45);
    assert_eq!(r.acc.y, 0);
}

#[test]
fn jump_start_cancels_residual_fall_speed() {
    let a = player_with(Vec2 { x: 25, y: -200 }, Vec2 { x: 0, y: 0 }, 0, 0);
    let input = RawInput { left: false, right: false, jump_pressed: true, jump_held: true };
    let r = resolve_input(a, false, input, 2000, 10);
    assert_eq!(r.vel.y, 0);
    assert_eq!(r.acc.y, 400);
    assert_eq!(r.vel.x, 25);
}

#[test]
fn holding_jump_past_max_duration_contributes_nothing() {
    let a = player_with(Vec2 { x: 0, y: 0 }, Vec2 { x: 0, y: 0 }, 1000, 50);
    let input = RawInput { left: false, right: false, jump_pressed: false, jump_held: true };
    let r = resolve_input(a, false, input, 2000, 10);
    assert_eq!(r.acc.y, 0);
}

#[test]
fn walk_keys_accelerate_horizontally() {
    let a = player_with(Vec2 { x: 0, y: 0 }, Vec2 { x: 0, y: 0 }, 0, 50);
    let input = RawInput { left: false, right: true, jump_pressed: false, jump_held: false };
    assert_eq!(resolve_input(a, true, input, 100, 10).acc.x, 50);
    let input2 = RawInput { left: true, right: false, jump_pressed: false, jump_held: false };
    assert_eq!(resolve_input(a, true, input2, 100, 10).acc.x, -50);
}

#[test]
fn full_wall_normal_flips_patrol_direction() {
    // moving right, wall on the right reports normal (-1, 0): flip to -1
    let a = mover_with_dir(1);
    let rep = report_of(vec![contact_with_normal_x(-1000)]);
    match patrol_flip(a, &rep).class {
        ActorClass::EnemyMover(m) => assert_eq!(m.dir, -1),
        _ => panic!("mover expected"),
    }
    // normal (1, 0) flips to +1
    let b = mover_with_dir(-1);
    let rep2 = report_of(vec![contact_with_normal_x(1000)]);
    match patrol_flip(b, &rep2).class {
        ActorClass::EnemyMover(m) => assert_eq!(m.dir, 1),
        _ => panic!("mover expected"),
    }
}

#[test]
fn off_band_normals_leave_direction_unchanged() {
    // a floor normal (0, 1) is no wall
    let a = mover_with_dir(1);
    let floor = Contact { other: ContactOther::Wall, normal: Vec2 { x: 0, y: 1000 } };
    match patrol_flip(a, &report_of(vec![floor])).class {
        ActorClass::EnemyMover(m) => assert_eq!(m.dir, 1),
        _ => panic!("mover expected"),
    }
    // the band is strict: exactly 900 or 1100 does not flip
    for nx in [900, 1100, -900, -1100, 0, 456] {
        let b = mover_with_dir(1);
        match patrol_flip(b, &report_of(vec![contact_with_normal_x(nx)])).class {
            ActorClass::EnemyMover(m) => assert_eq!(m.dir, 1, "normal {} must not flip", nx),
            _ => panic!("mover expected"),
        }
    }
    // just inside the band flips
    let c = mover_with_dir(1);
    match patrol_flip(c, &report_of(vec![contact_with_normal_x(-950)])).class {
        ActorClass::EnemyMover(m) => assert_eq!(m.dir, -1),
        _ => panic!("mover expected"),
    }
}

#[test]
fn last_wall_contact_wins() {
    let a = mover_with_dir(1);
    let rep = report_of(vec![contact_with_normal_x(-1000), contact_with_normal_x(1000)]);
    match patrol_flip(a, &rep).class {
        ActorClass::EnemyMover(m) => assert_eq!(m.dir, 1),
        _ => panic!("mover expected"),
    }
}

#[test]
fn patrol_thrust_follows_direction() {
    let a = mover_with_dir(1);
    assert_eq!(patrol(a).acc.x, 50);
    let b = mover_with_dir(-1);
    assert_eq!(patrol(b).acc.x, -50);
}

#[test]
fn wall_stop_zeroes_motion_toward_the_wall() {
    let mut a = Actor::player();
    a.vel = Vec2 { x: 200, y: 10 };
    a.acc = Vec2 { x: 50, y: 5 };
    // wall to the right: its normal points back at the player
    let hits = vec![WallHit { wall: true, normal_x: -1000 }];
    let r = wall_stop(a, &hits);
    assert_eq!(r.vel.x, 0);
    assert_eq!(r.acc.x, 0);
    assert_eq!(r.vel.y, 10);
    assert_eq!(r.acc.y, 5);
}

#[test]
fn wall_stop_ignores_walls_behind_and_non_walls() {
    let mut a = Actor::player();
    a.vel = Vec2 { x: 200, y: 0 };
    a.acc = Vec2 { x: 50, y: 0 };
    // moving right; a wall to the left (normal pointing right) does nothing
    let behind = vec![WallHit { wall: true, normal_x: 1000 }];
    assert_eq!(wall_stop(a, &behind).vel.x, 200);
    // a non-wall hit in front does nothing
    let decoration = vec![WallHit { wall: false, normal_x: -1000 }];
    assert_eq!(wall_stop(a, &decoration).vel.x, 200);
}

#[test]
fn governor_clamps_to_class_caps() {
    let mut p = Actor::player();
    p.vel = Vec2 { x: 301, y: 999 };
    let r = govern(p);
    assert_eq!(r.vel.x, 300);
    assert_eq!(r.vel.y, 999);
    p.vel = Vec2 { x: -5000, y: 0 };
    assert_eq!(govern(p).vel.x, -300);
    p.vel = Vec2 { x: 299, y: 0 };
    assert_eq!(govern(p).vel.x, 299);
    let mut e = Actor::enemy();
    e.vel = Vec2 { x: 51, y: 0 };
    assert_eq!(govern(e).vel.x, 50);
    let mut m = Actor::enemy_mover();
    m.vel = Vec2 { x: -51, y: 0 };
    assert_eq!(govern(m).vel.x, -50);
}

#[test]
fn death_plane_marks_only_while_running() {
    let a = Actor::player();
    assert!(fall_out(a, -25001, true).dead);
    assert!(!fall_out(a, -25000, true).dead);
    assert!(!fall_out(a, -25001, false).dead);
    let e = Actor::enemy();
    assert!(!fall_out(e, -25001, true).dead);
}
