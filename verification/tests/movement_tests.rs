//! Input resolution and position integration, on concrete values.

use player_motion::movement::{Direction, MovementPlugin, Vec2, Vec3, Velocity};
use player_motion::player::{KeyFlags, Player, PlayerPlugin, PLAYER_SPEED};

fn keys(up: bool, down: bool, left: bool, right: bool) -> KeyFlags {
    KeyFlags { up, down, left, right }
}

fn no_keys() -> KeyFlags {
    KeyFlags { up: false, down: false, left: false, right: false }
}

fn fresh_player() -> Player {
    Player::new(Vec3 { x: 0, y: 0, z: 0 }, PLAYER_SPEED, 100)
}

#[test]
fn velocity_new_faces_down() {
    let v = Velocity::new(Vec2 { x: 3, y: -4 });
    assert_eq!(v.value, Vec2 { x: 3, y: -4 });
    assert_eq!(v.direction, Some(Direction::Down));
}

#[test]
fn single_key_up() {
    let mut p = fresh_player();
    PlayerPlugin::player_movement(&mut p, keys(true, false, false, false));
    assert_eq!(p.velocity.value, Vec2 { x: 0, y: 40 });
}

#[test]
fn single_key_down() {
    let mut p = fresh_player();
    PlayerPlugin::player_movement(&mut p, keys(false, true, false, false));
    assert_eq!(p.velocity.value, Vec2 { x: 0, y: -40 });
}

#[test]
fn single_key_left() {
    let mut p = fresh_player();
    PlayerPlugin::player_movement(&mut p, keys(false, false, true, false));
    assert_eq!(p.velocity.value, Vec2 { x: -40, y: 0 });
}

#[test]
fn single_key_right() {
    let mut p = fresh_player();
    PlayerPlugin::player_movement(&mut p, keys(false, false, false, true));
    assert_eq!(p.velocity.value, Vec2 { x: 40, y: 0 });
}

#[test]
fn no_key_zero_velocity() {
    let mut p = fresh_player();
    PlayerPlugin::player_movement(&mut p, keys(false, false, false, false));
    assert_eq!(p.velocity.value, Vec2 { x: 0, y: 0 });
}

#[test]
fn priority_up_beats_left() {
    // Movement is exclusive: up and left held together walk purely up.
    let mut p = fresh_player();
    PlayerPlugin::player_movement(&mut p, keys(true, false, true, false));
    assert_eq!(p.velocity.value, Vec2 { x: 0, y: 40 });
}

#[test]
fn priority_down_beats_right() {
    let mut p = fresh_player();
    PlayerPlugin::player_movement(&mut p, keys(false, true, false, true));
    assert_eq!(p.velocity.value, Vec2 { x: 0, y: -40 });
}

#[test]
fn priority_left_beats_right() {
    let mut p = fresh_player();
    PlayerPlugin::player_movement(&mut p, keys(false, false, true, true));
    assert_eq!(p.velocity.value, Vec2 { x: -40, y: 0 });
}

#[test]
fn integration_moves_by_velocity_times_time() {
    let mut p = fresh_player();
    p.position = Vec3 { x: 7, y: -2, z: 5 };
    p.velocity.value = Vec2 { x: 3, y: -10 };
    MovementPlugin::update_position(&mut p, 4);
    assert_eq!(p.position, Vec3 { x: 19, y: -42, z: 5 });
}

#[test]
fn integration_substeps_match_one_step() {
    // The same total elapsed time, split 1+2+3+4 versus taken at once.
    let mut a = fresh_player();
    a.position = Vec3 { x: 100, y: 200, z: 0 };
    a.velocity.value = Vec2 { x: -7, y: 13 };
    let mut b = a;
    for dt in [1, 2, 3, 4] {
        MovementPlugin::update_position(&mut a, dt);
    }
    MovementPlugin::update_position(&mut b, 10);
    assert_eq!(a.position, b.position);
}

#[test]
fn hold_right_one_time_unit() {
    // Speed 20, start at (100, 0, 0), hold the right key for one time unit
    // split into 60 equal sub-steps. With 60 ticks per time unit and 60
    // sub-units per distance unit, a speed of 20 units per time unit is
    // again 20 sub-units per tick, so the run stays in exact integers:
    // 100 units = 6000 sub-units, and the target 120 units = 7200.
    let mut p = Player::new(Vec3 { x: 6000, y: 0, z: 0 }, 20, 6);
    let held = keys(false, false, false, true);
    let pressed = keys(false, false, false, true);
    p.update(held, pressed, no_keys(), 1);
    for _ in 1..60 {
        p.update(held, no_keys(), no_keys(), 1);
    }
    assert_eq!(p.position, Vec3 { x: 7200, y: 0, z: 0 });
    assert_eq!(p.velocity.direction, Some(Direction::Right));
}
