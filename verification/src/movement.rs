//! Movement data: directions, integer vectors, velocity, and the position
//! integrator that advances a transform by velocity times elapsed time.

use vstd::prelude::*;
use crate::player::Player;

verus! {

/// A facing direction on the four movement axes.
#[derive(Debug, Clone, Copy, PartialEq, Eq, Structural)]
pub enum Direction {
    Up,
    Down,
    Left,
    Right,
}

/// A direction carried as a component of its own.
#[derive(Debug, Clone, Copy, PartialEq, Eq, Structural)]
pub struct MovementDirection {
    pub value: Direction,
}

/// A 2D vector in distance units per time tick, on integer axes.
#[derive(Debug, Clone, Copy, PartialEq, Eq, Structural)]
pub struct Vec2 {
    pub x: i64,
    pub y: i64,
}

/// A 3D point in distance units, on integer axes.
#[derive(Debug, Clone, Copy, PartialEq, Eq, Structural)]
pub struct Vec3 {
    pub x: i64,
    pub y: i64,
    pub z: i64,
}

/// A per-frame velocity, tagged with the last direction a movement key chose;
/// the tag is absent while the player is idle.
#[derive(Debug, Clone, Copy)]
pub struct Velocity {
    pub value: Vec2,
    pub direction: Option<Direction>,
}

impl Velocity {
    /// A fresh velocity faces down, the pose the sprite sheet starts in.
    pub fn new(value: Vec2) -> (v: Velocity)
        ensures
            v.value == value,
            v.direction == Some(Direction::Down),
    {
        Velocity { value, direction: Some(Direction::Down) }
    }
}

/// The position the integrator yields: each axis advances by its velocity
/// component times the elapsed ticks; the third axis never moves.
pub open spec fn integrated_position(pos: Vec3, vel: Vec2, dt: int) -> Vec3 {
    Vec3 {
        x: (pos.x + vel.x * dt) as i64,
        y: (pos.y + vel.y * dt) as i64,
        z: pos.z,
    }
}

/// The player after one integration step: only the position changes.
pub open spec fn integrate_step(p: Player, dt: int) -> Player {
    Player {
        position: integrated_position(p.position, p.velocity.value, dt),
        ..p
    }
}

/// The subsystem that applies velocities to positions.
pub struct MovementPlugin;

impl MovementPlugin {
    /// One Euler integration step: position advances by velocity times the
    /// elapsed ticks. Nothing but the position changes.
    pub fn update_position(player: &mut Player, dt: i64)
        requires
            dt >= 0,
            i64::MIN <= old(player).velocity.value.x * dt <= i64::MAX,
            i64::MIN <= old(player).velocity.value.y * dt <= i64::MAX,
            i64::MIN <= old(player).position.x + old(player).velocity.value.x * dt <= i64::MAX,
            i64::MIN <= old(player).position.y + old(player).velocity.value.y * dt <= i64::MAX,
        ensures
            *final(player) == integrate_step(*old(player), dt as int),
    {
        let dx: i64 = player.velocity.value.x * dt;
        let dy: i64 = player.velocity.value.y * dt;
        player.position.x = player.position.x + dx;
        player.position.y = player.position.y + dy;
    }
}

} // verus!
