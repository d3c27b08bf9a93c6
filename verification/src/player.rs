//! The player: its per-frame state, and the systems that read key flags,
//! pick walk or idle animation ranges, advance the frame timer, and drive
//! the whole frame update.

use vstd::prelude::*;
use crate::movement::{integrate_step, Direction, MovementPlugin, Vec2, Vec3, Velocity};

verus! {

/// Distance units a walking player covers per time tick, at the default speed.
pub const PLAYER_SPEED: i64 = 40;

/// One flag per movement key, in the priority order up, down, left, right.
/// A value describes one frame's view of the keyboard: which keys are held,
/// or were just pressed, or were just released.
#[derive(Debug, Clone, Copy, PartialEq, Eq, Structural)]
pub struct KeyFlags {
    pub up: bool,
    pub down: bool,
    pub left: bool,
    pub right: bool,
}

impl KeyFlags {
    /// True when any of the four flags is set.
    pub open spec fn any(self) -> bool {
        self.up || self.down || self.left || self.right
    }
}

/// An inclusive frame range [first, last] into the sprite sheet: one
/// animation clip.
#[derive(Debug, Clone, Copy, PartialEq, Eq, Structural)]
pub struct AnimationIndices {
    pub first: usize,
    pub last: usize,
}

/// A repeating countdown that paces frame advancement: it accumulates
/// elapsed ticks and fires each time a full period has passed.
#[derive(Debug, Clone, Copy)]
pub struct AnimationTimer {
    pub period: i64,
    pub elapsed: i64,
}

impl AnimationTimer {
    /// The period is positive and the accumulated time always stays short
    /// of it: firing resets the accumulator modulo the period.
    pub open spec fn wf(self) -> bool {
        0 < self.period && 0 <= self.elapsed < self.period
    }

    pub fn new(period: i64) -> (t: AnimationTimer)
        requires
            period > 0,
        ensures
            t.period == period,
            t.elapsed == 0,
            t.wf(),
    {
        AnimationTimer { period, elapsed: 0 }
    }
}

/// Whether advancing the timer by `dt` ticks completes a period.
pub open spec fn timer_fires(t: AnimationTimer, dt: int) -> bool {
    t.elapsed + dt >= t.period
}

/// The timer after `dt` ticks: the accumulator grows by `dt` and wraps
/// modulo the period each time it fires.
pub open spec fn ticked_timer(t: AnimationTimer, dt: int) -> AnimationTimer {
    AnimationTimer {
        period: t.period,
        elapsed: ((t.elapsed + dt) % (t.period as int)) as i64,
    }
}

/// The sprite-sheet index shown after one timer fire: one step through the
/// clip, wrapping from `last` back to `first`.
pub open spec fn next_frame(frame: usize, indices: AnimationIndices) -> usize {
    if frame == indices.last {
        indices.first
    } else {
        (frame + 1) as usize
    }
}

/// The walking clip for a direction.
pub open spec fn walk_indices(d: Direction) -> AnimationIndices {
    match d {
        Direction::Up => AnimationIndices { first: 30, last: 35 },
        Direction::Down => AnimationIndices { first: 18, last: 23 },
        Direction::Left => AnimationIndices { first: 24, last: 29 },
        Direction::Right => AnimationIndices { first: 24, last: 29 },
    }
}

/// The idle clip entered when a direction's key is released.
pub open spec fn idle_indices(d: Direction) -> AnimationIndices {
    match d {
        Direction::Up => AnimationIndices { first: 12, last: 17 },
        Direction::Down => AnimationIndices { first: 0, last: 5 },
        Direction::Left => AnimationIndices { first: 6, last: 11 },
        Direction::Right => AnimationIndices { first: 6, last: 11 },
    }
}

/// The sprite is mirrored horizontally exactly while facing left; every
/// transition writes the flag, so the pose is canonical for its direction.
pub open spec fn facing_flip(d: Direction) -> bool {
    d == Direction::Left
}

/// The player: every per-frame field in one place. The entity store,
/// renderer and keyboard live outside and exchange plain values with it.
#[derive(Debug, Clone, Copy)]
pub struct Player {
    pub velocity: Velocity,
    pub indices: AnimationIndices,
    pub timer: AnimationTimer,
    /// The sprite-sheet index currently displayed.
    pub frame: usize,
    /// True while the sprite is mirrored horizontally (facing left).
    pub flip_x: bool,
    pub position: Vec3,
    pub speed: i64,
}

/// The velocity one frame of held keys resolves to: the first held key in
/// the priority order up, down, left, right sets its axis to the signed
/// speed, every other axis component is zero. Movement is exclusive by
/// design: no diagonal arises even when several keys are held.
pub open spec fn resolved_velocity(held: KeyFlags, speed: i64) -> Vec2 {
    if held.up {
        Vec2 { x: 0, y: speed }
    } else if held.down {
        Vec2 { x: 0, y: (-speed) as i64 }
    } else if held.left {
        Vec2 { x: (-speed) as i64, y: 0 }
    } else if held.right {
        Vec2 { x: speed, y: 0 }
    } else {
        Vec2 { x: 0, y: 0 }
    }
}

/// The player after input resolution: only the velocity vector changes.
pub open spec fn movement_step(p: Player, held: KeyFlags) -> Player {
    Player {
        velocity: Velocity {
            value: resolved_velocity(held, p.speed),
            direction: p.velocity.direction,
        },
        ..p
    }
}

/// The player after turning to walk in direction `d`: the walking clip is
/// selected, the displayed frame restarts at its first index, the mirror
/// flag matches the direction, and the direction is recorded.
pub open spec fn walk_state(p: Player, d: Direction) -> Player {
    Player {
        velocity: Velocity { value: p.velocity.value, direction: Some(d) },
        indices: walk_indices(d),
        frame: walk_indices(d).first,
        flip_x: facing_flip(d),
        ..p
    }
}

/// The player after entering direction `d`'s idle clip: the clip and mirror
/// flag change and the frame restarts; the recorded direction is untouched
/// here (releases clear it once, afterwards).
pub open spec fn idle_state(p: Player, d: Direction) -> Player {
    Player {
        indices: idle_indices(d),
        frame: idle_indices(d).first,
        flip_x: facing_flip(d),
        ..p
    }
}

/// The player after one frame of key presses: the four keys are considered
/// in the fixed order up, down, left, right, and each key just pressed
/// whose direction differs from the currently recorded one switches the
/// player to walking that way. Later writes win when several keys were
/// pressed in the same frame. A press of the direction already recorded
/// changes nothing, so holding a key does not restart its clip.
pub open spec fn press_step(p: Player, pressed: KeyFlags) -> Player {
    let p1 = if pressed.up && p.velocity.direction != Some(Direction::Up) {
        walk_state(p, Direction::Up)
    } else {
        p
    };
    let p2 = if pressed.down && p1.velocity.direction != Some(Direction::Down) {
        walk_state(p1, Direction::Down)
    } else {
        p1
    };
    let p3 = if pressed.left && p2.velocity.direction != Some(Direction::Left) {
        walk_state(p2, Direction::Left)
    } else {
        p2
    };
    if pressed.right && p3.velocity.direction != Some(Direction::Right) {
        walk_state(p3, Direction::Right)
    } else {
        p3
    }
}

/// The player after one frame of key releases: each released key switches
/// to its idle clip, in the fixed order up, down, left, right with later
/// writes winning, and any release leaves the recorded direction absent.
/// A frame with no release changes nothing.
pub open spec fn release_step(p: Player, released: KeyFlags) -> Player {
    let p1 = if released.up { idle_state(p, Direction::Up) } else { p };
    let p2 = if released.down { idle_state(p1, Direction::Down) } else { p1 };
    let p3 = if released.left { idle_state(p2, Direction::Left) } else { p2 };
    let p4 = if released.right { idle_state(p3, Direction::Right) } else { p3 };
    if released.any() {
        Player {
            velocity: Velocity { value: p4.velocity.value, direction: None },
            ..p4
        }
    } else {
        p4
    }
}

/// The player after `dt` ticks of animation: the timer advances, and the
/// displayed frame steps through the clip exactly when the timer fires.
pub open spec fn animate_step(p: Player, dt: int) -> Player {
    Player {
        timer: ticked_timer(p.timer, dt),
        frame: if timer_fires(p.timer, dt) {
            next_frame(p.frame, p.indices)
        } else {
            p.frame
        },
        ..p
    }
}

/// One whole frame, in the fixed order: resolve held keys to a velocity,
/// apply presses, apply releases, animate, then integrate the position.
pub open spec fn frame_step(
    p: Player,
    held: KeyFlags,
    pressed: KeyFlags,
    released: KeyFlags,
    dt: int,
) -> Player {
    integrate_step(
        animate_step(release_step(press_step(movement_step(p, held), pressed), released), dt),
        dt,
    )
}

impl Player {
    /// Well-formedness: the timer is sound, the displayed frame lies inside
    /// the active clip, and the speed is a nonnegative magnitude.
    pub open spec fn wf(self) -> bool {
        &&& self.timer.wf()
        &&& self.indices.first <= self.frame <= self.indices.last
        &&& 0 <= self.speed
    }

    /// A freshly spawned player: at rest in the down-facing pose, showing
    /// the first frame of the down idle clip, with an empty timer.
    pub fn new(position: Vec3, speed: i64, frame_period: i64) -> (p: Player)
        requires
            speed >= 0,
            frame_period > 0,
        ensures
            p.wf(),
            p.velocity.value == (Vec2 { x: 0, y: 0 }),
            p.velocity.direction == Some(Direction::Down),
            p.indices == idle_indices(Direction::Down),
            p.frame == 0,
            !p.flip_x,
            p.timer.period == frame_period,
            p.timer.elapsed == 0,
            p.position == position,
            p.speed == speed,
    {
        Player {
            velocity: Velocity::new(Vec2 { x: 0, y: 0 }),
            indices: AnimationIndices { first: 0, last: 5 },
            frame: 0,
            flip_x: false,
            timer: AnimationTimer::new(frame_period),
            position,
            speed,
        }
    }

    /// One whole frame in the fixed order: resolve input, select direction,
    /// enter idle clips for releases, advance the animation, integrate the
    /// position.
    pub fn update(&mut self, held: KeyFlags, pressed: KeyFlags, released: KeyFlags, dt: i64)
        requires
            old(self).wf(),
            dt >= 0,
            old(self).timer.elapsed + dt <= i64::MAX,
            i64::MIN <= resolved_velocity(held, old(self).speed).x * dt <= i64::MAX,
            i64::MIN <= resolved_velocity(held, old(self).speed).y * dt <= i64::MAX,
            i64::MIN <= old(self).position.x + resolved_velocity(held, old(self).speed).x * dt
                <= i64::MAX,
            i64::MIN <= old(self).position.y + resolved_velocity(held, old(self).speed).y * dt
                <= i64::MAX,
        ensures
            final(self).wf(),
            *final(self) == frame_step(*old(self), held, pressed, released, dt as int),
    {
        PlayerPlugin::player_movement(self, held);
        PlayerPlugin::player_direction(self, pressed);
        PlayerPlugin::player_idle(self, released);
        PlayerPlugin::animate_sprite_player(self, dt);
        MovementPlugin::update_position(self, dt);
    }
}

/// The player is the unique entity of its kind; a frame may act only on
/// exactly one. Given how many candidates a store holds, either confirm
/// the singleton or report which way it fails.
#[derive(Debug, Clone, Copy, PartialEq, Eq, Structural)]
pub enum SingletonError {
    /// No player exists.
    Missing,
    /// More than one player exists.
    Ambiguous,
}

/// Fails fast when the store holds no player, or more than one.
pub fn check_singleton(count: usize) -> (r: Result<(), SingletonError>)
    ensures
        r is Ok <==> count == 1,
        count == 0 ==> r == Err::<(), SingletonError>(SingletonError::Missing),
        count > 1 ==> r == Err::<(), SingletonError>(SingletonError::Ambiguous),
{
    if count == 0 {
        Err(SingletonError::Missing)
    } else if count == 1 {
        Ok(())
    } else {
        Err(SingletonError::Ambiguous)
    }
}

/// The subsystem that owns the player's per-frame systems.
pub struct PlayerPlugin;

impl PlayerPlugin {
    /// True exactly when the recorded direction equals `target`.
    fn dir_is(d: &Option<Direction>, target: Direction) -> (r: bool)
        ensures
            r <==> *d == Some(target),
    {
        match d {
            Some(x) => *x == target,
            None => false,
        }
    }

    /// Resolves this frame's held keys into the player's velocity vector.
    pub fn player_movement(player: &mut Player, held: KeyFlags)
        requires
            old(player).wf(),
        ensures
            final(player).wf(),
            *final(player) == movement_step(*old(player), held),
    {
        let mut x: i64 = 0;
        let mut y: i64 = 0;
        if held.up {
            y = player.speed;
        } else if held.down {
            y = -player.speed;
        } else if held.left {
            x = -player.speed;
        } else if held.right {
            x = player.speed;
        }
        player.velocity.value = Vec2 { x, y };
    }

    /// Applies this frame's key presses: each press of a direction other
    /// than the recorded one switches the player to that walking clip.
    pub fn player_direction(player: &mut Player, pressed: KeyFlags)
        requires
            old(player).wf(),
        ensures
            final(player).wf(),
            *final(player) == press_step(*old(player), pressed),
    {
        if pressed.up && !Self::dir_is(&player.velocity.direction, Direction::Up) {
            player.indices = AnimationIndices { first: 30, last: 35 };
            player.frame = 30;
            player.flip_x = false;
            player.velocity.direction = Some(Direction::Up);
        }
        if pressed.down && !Self::dir_is(&player.velocity.direction, Direction::Down) {
            player.indices = AnimationIndices { first: 18, last: 23 };
            player.frame = 18;
            player.flip_x = false;
            player.velocity.direction = Some(Direction::Down);
        }
        if pressed.left && !Self::dir_is(&player.velocity.direction, Direction::Left) {
            player.indices = AnimationIndices { first: 24, last: 29 };
            player.frame = 24;
            player.flip_x = true;
            player.velocity.direction = Some(Direction::Left);
        }
        if pressed.right && !Self::dir_is(&player.velocity.direction, Direction::Right) {
            player.indices = AnimationIndices { first: 24, last: 29 };
            player.frame = 24;
            player.flip_x = false;
            player.velocity.direction = Some(Direction::Right);
        }
    }

    /// Applies this frame's key releases: each release enters that
    /// direction's idle clip, and any release leaves the player idle,
    /// with no direction recorded.
    pub fn player_idle(player: &mut Player, released: KeyFlags)
        requires
            old(player).wf(),
        ensures
            final(player).wf(),
            *final(player) == release_step(*old(player), released),
    {
        if released.up {
            player.indices = AnimationIndices { first: 12, last: 17 };
            player.frame = 12;
            player.flip_x = false;
        }
        if released.down {
            player.indices = AnimationIndices { first: 0, last: 5 };
            player.frame = 0;
            player.flip_x = false;
        }
        if released.left {
            player.indices = AnimationIndices { first: 6, last: 11 };
            player.frame = 6;
            player.flip_x = true;
        }
        if released.right {
            player.indices = AnimationIndices { first: 6, last: 11 };
            player.frame = 6;
            player.flip_x = false;
        }
        if released.up || released.down || released.left || released.right {
            player.velocity.direction = None;
        }
    }

    /// Advances the animation by `dt` ticks: the timer accumulates the
    /// elapsed time, and when it completes a period the displayed frame
    /// steps once through the clip, wrapping from last back to first.
    pub fn animate_sprite_player(player: &mut Player, dt: i64)
        requires
            old(player).wf(),
            dt >= 0,
            old(player).timer.elapsed + dt <= i64::MAX,
        ensures
            final(player).wf(),
            *final(player) == animate_step(*old(player), dt as int),
    {
        let total: i64 = player.timer.elapsed + dt;
        if total >= player.timer.period {
            player.timer.elapsed = total % player.timer.period;
            player.frame = if player.frame == player.indices.last {
                player.indices.first
            } else {
                player.frame + 1
            };
        } else {
            proof {
                vstd::arithmetic::div_mod::lemma_small_mod(total as nat, player.timer.period as nat);
            }
            player.timer.elapsed = total;
        }
    }
}

} // verus!
