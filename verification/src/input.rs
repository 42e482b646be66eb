use vstd::prelude::*;
use crate::geom::{Vec2i, SPEED_LIMIT};
use vstd::math::abs;

verus! {

/// Which directional keys are held during the current frame. Sampled
/// once per frame by the loop driver and passed in explicitly, so that
/// the mapping below stays pure.
#[derive(Clone, Copy, PartialEq, Eq, Structural, Debug)]
pub struct InputState {
    pub up: bool,
    pub left: bool,
    pub down: bool,
    pub right: bool,
}

impl InputState {
    /// The frame with no key held.
    pub fn idle() -> (s: InputState)
        ensures
            s == (InputState { up: false, left: false, down: false, right: false }),
    {
        InputState { up: false, left: false, down: false, right: false }
    }
}

/// Contribution of one axis: the key towards positive coordinates adds
/// `speed`, the key towards negative coordinates subtracts it, so two
/// opposing keys cancel exactly.
pub open spec fn axis_speed(toward_negative: bool, toward_positive: bool, speed: int) -> int {
    (if toward_positive {
        speed
    } else {
        0
    }) - (if toward_negative {
        speed
    } else {
        0
    })
}

/// Horizontal velocity the held keys select (left is negative X).
pub open spec fn vel_x(input: InputState, speed: int) -> int {
    axis_speed(input.left, input.right, speed)
}

/// Vertical velocity the held keys select (up is negative Y).
pub open spec fn vel_y(input: InputState, speed: int) -> int {
    axis_speed(input.up, input.down, speed)
}

/// Maps the held keys to a velocity vector: each held key contributes a
/// whole unit of `speed` along its axis, with no diagonal normalization,
/// so holding two non-opposing keys moves faster than holding one.
pub fn velocity_from_input(input: InputState, speed: i64) -> (v: Vec2i)
    requires
        0 <= speed <= SPEED_LIMIT,
    ensures
        v.x == vel_x(input, speed as int),
        v.y == vel_y(input, speed as int),
{
    let mut v = Vec2i { x: 0, y: 0 };
    if input.up {
        v.y = v.y - speed;
    }
    if input.left {
        v.x = v.x - speed;
    }
    if input.down {
        v.y = v.y + speed;
    }
    if input.right {
        v.x = v.x + speed;
    }
    v
}

/// Law: each velocity component has magnitude exactly `speed` when one
/// key of its axis is held and the opposing key is not, and magnitude 0
/// otherwise (no key, or both keys cancelling). In particular a diagonal
/// pair of keys yields magnitude `speed` on both axes at once, never a
/// normalized fraction of it.
pub proof fn lemma_velocity_component_magnitude(input: InputState, speed: int)
    requires
        0 <= speed,
    ensures
        abs(vel_x(input, speed)) == (if input.left != input.right {
            speed
        } else {
            0
        }),
        abs(vel_y(input, speed)) == (if input.up != input.down {
            speed
        } else {
            0
        }),
{
}

/// Law: holding no key yields the zero vector, whatever the speed.
pub proof fn lemma_no_keys_zero_velocity(input: InputState, speed: int)
    requires
        !input.up && !input.left && !input.down && !input.right,
    ensures
        vel_x(input, speed) == 0,
        vel_y(input, speed) == 0,
{
}

} // verus!
