//! Keyboard-to-movement decision rules.
//!
//! Each tick the hosting runtime reports which directional inputs are
//! held. This module decides the facing direction (last-applied wins,
//! in the fixed order West, East, North, South) and the raw axis
//! vector; the runtime then normalizes that vector, scales it by the
//! movement speed and applies it to the character's position.

use vstd::prelude::*;
use crate::animation::Direction;

verus! {

/// The set of directional inputs held during one tick.
#[derive(Clone, Copy, PartialEq, Eq, Structural, Debug)]
pub struct DirectionalInput {
    pub left: bool,
    pub right: bool,
    pub up: bool,
    pub down: bool,
}

/// The facing direction that a set of held inputs resolves to: the
/// mapping rules are applied in the order West, East, North, South, and
/// the last one applied wins; with no input held the current facing is
/// kept.
pub open spec fn spec_facing(input: DirectionalInput, current: Direction) -> Direction {
    if input.down {
        Direction::South
    } else if input.up {
        Direction::North
    } else if input.right {
        Direction::East
    } else if input.left {
        Direction::West
    } else {
        current
    }
}

/// Horizontal component of the raw movement vector: right minus left.
pub open spec fn spec_axis_x(input: DirectionalInput) -> int {
    (if input.right { 1int } else { 0int }) - (if input.left { 1int } else { 0int })
}

/// Vertical component of the raw movement vector: up minus down.
pub open spec fn spec_axis_y(input: DirectionalInput) -> int {
    (if input.up { 1int } else { 0int }) - (if input.down { 1int } else { 0int })
}

/// Resolve the facing direction for this tick from the held inputs,
/// keeping `current` when none is held.
pub fn resolve_facing(input: DirectionalInput, current: Direction) -> (r: Direction)
    ensures
        r == spec_facing(input, current),
{
    let mut facing = current;
    if input.left {
        facing = Direction::West;
    }
    if input.right {
        facing = Direction::East;
    }
    if input.up {
        facing = Direction::North;
    }
    if input.down {
        facing = Direction::South;
    }
    facing
}

/// Raw (un-normalized) movement vector for the held inputs; each
/// component is -1, 0 or 1.
pub fn axis_vector(input: DirectionalInput) -> (r: (i8, i8))
    ensures
        r.0 as int == spec_axis_x(input),
        r.1 as int == spec_axis_y(input),
{
    let mut dx: i8 = 0;
    let mut dy: i8 = 0;
    if input.left {
        dx = dx - 1;
    }
    if input.right {
        dx = dx + 1;
    }
    if input.up {
        dy = dy + 1;
    }
    if input.down {
        dy = dy - 1;
    }
    (dx, dy)
}

/// The raw movement vector is zero exactly when the held inputs cancel
/// on both axes (in particular when none is held); otherwise its
/// squared length is 1 or 2, so normalizing it yields a unit vector.
pub proof fn lemma_axis_vector_magnitude(input: DirectionalInput)
    ensures
        (spec_axis_x(input) == 0 && spec_axis_y(input) == 0) <==> (input.left == input.right
            && input.up == input.down),
        spec_axis_x(input) != 0 || spec_axis_y(input) != 0 ==> spec_axis_x(input) * spec_axis_x(
            input,
        ) + spec_axis_y(input) * spec_axis_y(input) == 1 || spec_axis_x(input) * spec_axis_x(input)
            + spec_axis_y(input) * spec_axis_y(input) == 2,
{
    let x = spec_axis_x(input);
    let y = spec_axis_y(input);
    assert(0 <= x * x <= 1 && (x * x == 0 <==> x == 0)) by (nonlinear_arith)
        requires
            -1 <= x <= 1,
    ;
    assert(0 <= y * y <= 1 && (y * y == 0 <==> y == 0)) by (nonlinear_arith)
        requires
            -1 <= y <= 1,
    ;
}

/// Assemble a moved position from freshly computed horizontal and
/// vertical components, keeping the depth component of the old position
/// unchanged: the returned depth is the very value passed in, so depth
/// ordering can never drift across movement updates.
pub fn with_depth_preserved<T>(x: T, y: T, position: (T, T, T)) -> (r: (T, T, T))
    ensures
        r.0 == x,
        r.1 == y,
        r.2 == position.2,
{
    let (_, _, z) = position;
    (x, y, z)
}

} // verus!
