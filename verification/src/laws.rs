//! The library's laws: properties that relate the step functions across
//! whole families of inputs, proved once and for all.

use vstd::prelude::*;
use crate::movement::{integrate_step, Direction, Vec2, Velocity};
use crate::player::{
    animate_step, facing_flip, idle_indices, next_frame, press_step, release_step,
    resolved_velocity, walk_state, AnimationIndices, KeyFlags, Player,
};

verus! {

/// Exactly one movement key is held.
pub open spec fn exactly_one_key(held: KeyFlags) -> bool {
    ||| (held.up && !held.down && !held.left && !held.right)
    ||| (!held.up && held.down && !held.left && !held.right)
    ||| (!held.up && !held.down && held.left && !held.right)
    ||| (!held.up && !held.down && !held.left && held.right)
}

/// With exactly one key held, the resolved velocity is the signed speed on
/// that key's axis and zero on the other.
pub proof fn lemma_single_key_velocity(held: KeyFlags, speed: i64)
    requires
        0 <= speed,
        exactly_one_key(held),
    ensures
        held.up ==> resolved_velocity(held, speed) == (Vec2 { x: 0, y: speed }),
        held.down ==> resolved_velocity(held, speed) == (Vec2 { x: 0, y: (-speed) as i64 }),
        held.left ==> resolved_velocity(held, speed) == (Vec2 { x: (-speed) as i64, y: 0 }),
        held.right ==> resolved_velocity(held, speed) == (Vec2 { x: speed, y: 0 }),
{
}

/// With no key held, the resolved velocity is zero on both axes.
pub proof fn lemma_idle_velocity(held: KeyFlags, speed: i64)
    requires
        !held.any(),
    ensures
        resolved_velocity(held, speed) == (Vec2 { x: 0, y: 0 }),
{
}

/// At most one key determines the velocity in any frame: whatever is held,
/// the resolved velocity is zero on at least one axis, so no diagonal
/// movement ever arises.
pub proof fn lemma_velocity_single_axis(held: KeyFlags, speed: i64)
    ensures
        resolved_velocity(held, speed).x == 0 || resolved_velocity(held, speed).y == 0,
{
}

/// The key flags with exactly direction `d`'s key set.
pub open spec fn only_key(d: Direction) -> KeyFlags {
    KeyFlags {
        up: d == Direction::Up,
        down: d == Direction::Down,
        left: d == Direction::Left,
        right: d == Direction::Right,
    }
}

/// Pressing exactly the key of a direction other than the recorded one
/// switches the player to walking that way: its clip, its first frame,
/// its mirror flag, and the direction recorded.
pub proof fn lemma_press_new_direction(p: Player, d: Direction)
    requires
        p.velocity.direction != Some(d),
    ensures
        press_step(p, only_key(d)) == walk_state(p, d),
{
}

/// Pressing exactly the key of the direction already recorded changes
/// nothing: holding a key never restarts its clip.
pub proof fn lemma_press_same_direction_noop(p: Player, d: Direction)
    requires
        p.velocity.direction == Some(d),
    ensures
        press_step(p, only_key(d)) == p,
{
}

/// Releasing exactly one direction's key leaves the player idle: that
/// direction's idle clip from its first frame, its mirror flag, and no
/// direction recorded. Everything else is untouched.
pub proof fn lemma_release_to_idle(p: Player, d: Direction)
    ensures
        release_step(p, only_key(d)) == (Player {
            velocity: Velocity { value: p.velocity.value, direction: None },
            indices: idle_indices(d),
            frame: idle_indices(d).first,
            flip_x: facing_flip(d),
            ..p
        }),
{
}

/// A frame with no key released changes nothing in the release step.
pub proof fn lemma_release_none_noop(p: Player, released: KeyFlags)
    requires
        !released.any(),
    ensures
        release_step(p, released) == p,
{
}

/// Animator idempotence under no elapsed time: a tick of zero leaves the
/// whole player unchanged, so any number of zero ticks does too.
pub proof fn lemma_animate_zero(p: Player)
    requires
        p.wf(),
    ensures
        animate_step(p, 0) == p,
{
    vstd::arithmetic::div_mod::lemma_small_mod(p.timer.elapsed as nat, p.timer.period as nat);
}

/// The frame shown after `n` timer fires, stepping once through the clip
/// per fire.
pub open spec fn advance_frames(frame: usize, indices: AnimationIndices, n: nat) -> usize
    decreases n,
{
    if n == 0 {
        frame
    } else {
        next_frame(advance_frames(frame, indices, (n - 1) as nat), indices)
    }
}

/// Stepping `k` fires into a clip, from its first frame, lands on
/// `first + k` as long as `k` stays within the clip.
proof fn lemma_advance_within(indices: AnimationIndices, k: nat)
    requires
        indices.first <= indices.last,
        k <= indices.last - indices.first,
    ensures
        advance_frames(indices.first, indices, k) == indices.first + k,
    decreases k,
{
    if k > 0 {
        lemma_advance_within(indices, (k - 1) as nat);
    }
}

/// The wrap law: from a clip's first frame, exactly `last - first + 1`
/// timer fires bring the displayed frame back to `first`. Every clip is
/// cyclic with the length of its range.
pub proof fn lemma_frame_cycle(indices: AnimationIndices)
    requires
        indices.first <= indices.last,
    ensures
        advance_frames(indices.first, indices, (indices.last - indices.first + 1) as nat)
            == indices.first,
{
    lemma_advance_within(indices, (indices.last - indices.first) as nat);
}

/// The ticks of a partition, in order.
pub open spec fn total_ticks(dts: Seq<int>) -> int
    decreases dts.len(),
{
    if dts.len() == 0 {
        0
    } else {
        dts[0] + total_ticks(dts.subrange(1, dts.len() as int))
    }
}

/// The player after integrating one sub-step per entry of `dts`, in order.
pub open spec fn integrate_steps(p: Player, dts: Seq<int>) -> Player
    decreases dts.len(),
{
    if dts.len() == 0 {
        p
    } else {
        integrate_steps(integrate_step(p, dts[0]), dts.subrange(1, dts.len() as int))
    }
}

/// Both axes of every prefix of the partition keep the position
/// representable, so no sub-step truncates.
pub open spec fn partition_in_range(p: Player, dts: Seq<int>) -> bool {
    forall|i: int|
        0 <= i <= dts.len() ==> {
            &&& i64::MIN <= p.position.x + p.velocity.value.x * total_ticks(#[trigger] dts.take(i))
                <= i64::MAX
            &&& i64::MIN <= p.position.y + p.velocity.value.y * total_ticks(dts.take(i))
                <= i64::MAX
        }
}

/// Two consecutive integration sub-steps amount to one step of their sum,
/// as long as neither position leaves the representable range.
pub proof fn lemma_integrate_additive(p: Player, d1: int, d2: int)
    requires
        i64::MIN <= p.position.x + p.velocity.value.x * d1 <= i64::MAX,
        i64::MIN <= p.position.y + p.velocity.value.y * d1 <= i64::MAX,
        i64::MIN <= p.position.x + p.velocity.value.x * (d1 + d2) <= i64::MAX,
        i64::MIN <= p.position.y + p.velocity.value.y * (d1 + d2) <= i64::MAX,
    ensures
        integrate_step(integrate_step(p, d1), d2) == integrate_step(p, d1 + d2),
{
    vstd::arithmetic::mul::lemma_mul_is_distributive_add(p.velocity.value.x as int, d1, d2);
    vstd::arithmetic::mul::lemma_mul_is_distributive_add(p.velocity.value.y as int, d1, d2);
}

/// Integrator linearity: integrating a constant velocity over any
/// partition into sub-steps yields exactly the state of one step over the
/// partition's total, as long as no prefix leaves the representable
/// range. Integration is additive, with no error term.
pub proof fn lemma_integrator_linear(p: Player, dts: Seq<int>)
    requires
        partition_in_range(p, dts),
    ensures
        integrate_steps(p, dts) == integrate_step(p, total_ticks(dts)),
    decreases dts.len(),
{
    if dts.len() == 0 {
        assert(dts.take(0) =~= dts);
    } else {
        let d0 = dts[0];
        let tail = dts.subrange(1, dts.len() as int);
        let p1 = integrate_step(p, d0);
        assert(dts.take(1) =~= seq![d0]);
        assert(total_ticks(dts.take(1)) == d0) by {
            let t1 = dts.take(1);
            assert(t1.subrange(1, 1) =~= Seq::<int>::empty());
            assert(total_ticks(Seq::<int>::empty()) == 0);
            assert(total_ticks(t1) == t1[0] + total_ticks(t1.subrange(1, 1)));
        }
        assert(p1.position.x == p.position.x + p.velocity.value.x * d0);
        assert(p1.position.y == p.position.y + p.velocity.value.y * d0);
        assert forall|i: int| 0 <= i <= tail.len() implies total_ticks(#[trigger] tail.take(i))
            == total_ticks(dts.take(i + 1)) - d0 by {
            assert(dts.take(i + 1)[0] == d0);
            assert(dts.take(i + 1).subrange(1, i + 1) =~= tail.take(i));
        }
        assert forall|i: int|
            0 <= i <= tail.len() implies {
                &&& i64::MIN <= p1.position.x + p1.velocity.value.x * total_ticks(
                    #[trigger] tail.take(i),
                ) <= i64::MAX
                &&& i64::MIN <= p1.position.y + p1.velocity.value.y * total_ticks(tail.take(i))
                    <= i64::MAX
            } by {
            vstd::arithmetic::mul::lemma_mul_is_distributive_add(
                p.velocity.value.x as int,
                d0,
                total_ticks(tail.take(i)),
            );
            vstd::arithmetic::mul::lemma_mul_is_distributive_add(
                p.velocity.value.y as int,
                d0,
                total_ticks(tail.take(i)),
            );
            assert(total_ticks(dts.take(i + 1)) == d0 + total_ticks(tail.take(i)));
        }
        lemma_integrator_linear(p1, tail);
        assert(tail.take(tail.len() as int) =~= tail);
        assert(dts.take(dts.len() as int) =~= dts);
        assert(total_ticks(dts) == d0 + total_ticks(tail));
        lemma_integrate_additive(p, d0, total_ticks(tail));
    }
}

} // verus!
