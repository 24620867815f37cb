//! From held arrow keys to a heading and a facing direction.

use crate::animation::AnimationState;
use crate::atlas::Facing;
use vstd::prelude::*;

verus! {

/// Which of the four arrow keys are held down.
#[derive(Debug, Clone, Copy, PartialEq, Eq, Structural)]
pub struct ArrowKeys {
    pub left: bool,
    pub right: bool,
    pub up: bool,
    pub down: bool,
}

/// A direction on the plane before it is given a length: each part is -1, 0
/// or 1, with `x` growing to the right and `y` growing upwards.
#[derive(Debug, Clone, Copy, PartialEq, Eq, Structural)]
pub struct Heading {
    pub x: i8,
    pub y: i8,
}

/// One unit for a held key, none for a free one.
pub open spec fn pull(held: bool) -> int {
    if held {
        1
    } else {
        0
    }
}

/// The horizontal part of the heading: opposite keys cancel.
pub open spec fn heading_x(keys: ArrowKeys) -> int {
    pull(keys.right) - pull(keys.left)
}

/// The vertical part of the heading: opposite keys cancel.
pub open spec fn heading_y(keys: ArrowKeys) -> int {
    pull(keys.up) - pull(keys.down)
}

/// The magnitude of an integer.
pub open spec fn magnitude(v: int) -> int {
    if v < 0 {
        -v
    } else {
        v
    }
}

/// The facing direction for a heading: along the axis with the larger part,
/// and along the vertical one where the two are equal.
pub open spec fn facing_toward(x: int, y: int) -> Facing {
    if magnitude(x) > magnitude(y) {
        if x > 0 {
            Facing::Right
        } else {
            Facing::Left
        }
    } else {
        if y > 0 {
            Facing::Up
        } else {
            Facing::Down
        }
    }
}

/// The state after steering with a heading: a heading other than zero turns
/// the character and sets it in motion, the zero heading puts the character
/// at rest and leaves its facing direction alone. What the animation recorded
/// of the frame before stays either way.
pub open spec fn steered(state: AnimationState, x: int, y: int) -> AnimationState {
    if x != 0 || y != 0 {
        AnimationState { facing: facing_toward(x, y), moving: true, was_moving: state.was_moving }
    } else {
        AnimationState { facing: state.facing, moving: false, was_moving: state.was_moving }
    }
}

/// Steering a second time with the same heading changes nothing more.
pub proof fn lemma_steering_settles(state: AnimationState, x: int, y: int)
    ensures
        steered(steered(state, x, y), x, y) == steered(state, x, y),
{
}

/// After steering the character moves exactly when the heading is not zero,
/// whatever it did before; what the animation recorded of the frame before
/// is untouched.
pub proof fn lemma_steering_sets_motion(state: AnimationState, x: int, y: int)
    ensures
        steered(state, x, y).moving == (x != 0 || y != 0),
        steered(state, x, y).was_moving == state.was_moving,
{
}

/// The character moves after steering exactly when, on at least one axis,
/// one of the two keys is held and the other is not.
pub proof fn lemma_motion_follows_keys(state: AnimationState, keys: ArrowKeys)
    ensures
        steered(state, heading_x(keys), heading_y(keys)).moving == (keys.left != keys.right
            || keys.up != keys.down),
{
}

/// Opposite keys cancel: with both keys of an axis held, that axis does not
/// pull, and with all four held the heading is zero.
pub proof fn lemma_opposite_keys_cancel(keys: ArrowKeys)
    ensures
        keys.left && keys.right ==> heading_x(keys) == 0,
        keys.up && keys.down ==> heading_y(keys) == 0,
{
}

/// A diagonal heading faces along the vertical axis.
pub proof fn lemma_diagonal_faces_vertically(x: int, y: int)
    requires
        magnitude(x) == magnitude(y),
    ensures
        facing_toward(x, y) == if y > 0 {
            Facing::Up
        } else {
            Facing::Down
        },
{
}

impl Heading {
    /// Neither part is beyond one unit.
    pub open spec fn wf(&self) -> bool {
        -1 <= self.x <= 1 && -1 <= self.y <= 1
    }

    /// Both parts are zero.
    pub open spec fn spec_is_zero(&self) -> bool {
        self.x == 0 && self.y == 0
    }

    /// Whether the heading points nowhere.
    #[verifier::when_used_as_spec(spec_is_zero)]
    pub fn is_zero(&self) -> (zero: bool)
        ensures
            zero == self.spec_is_zero(),
    {
        self.x == 0 && self.y == 0
    }
}

/// Returns the heading that the held keys ask for.
pub fn heading(keys: ArrowKeys) -> (h: Heading)
    ensures
        h.x == heading_x(keys),
        h.y == heading_y(keys),
        h.wf(),
{
    let mut x: i8 = 0;
    let mut y: i8 = 0;
    if keys.left {
        x = x - 1;
    }
    if keys.right {
        x = x + 1;
    }
    if keys.up {
        y = y + 1;
    }
    if keys.down {
        y = y - 1;
    }
    Heading { x, y }
}

/// Returns the facing direction for a heading.
pub fn face_toward(h: Heading) -> (facing: Facing)
    requires
        h.wf(),
    ensures
        facing == facing_toward(h.x as int, h.y as int),
{
    let ax: i8 = if h.x < 0 {
        -h.x
    } else {
        h.x
    };
    let ay: i8 = if h.y < 0 {
        -h.y
    } else {
        h.y
    };
    if ax > ay {
        if h.x > 0 {
            Facing::Right
        } else {
            Facing::Left
        }
    } else {
        if h.y > 0 {
            Facing::Up
        } else {
            Facing::Down
        }
    }
}

/// Steers the character by the held keys and returns the heading to move
/// along: the zero heading where no key pulls, or where opposite keys cancel.
/// The character is in motion afterwards exactly when the heading is not
/// zero.
pub fn steer(state: &mut AnimationState, keys: ArrowKeys) -> (h: Heading)
    ensures
        h.x == heading_x(keys),
        h.y == heading_y(keys),
        h.wf(),
        *final(state) == steered(*old(state), heading_x(keys), heading_y(keys)),
{
    let h = heading(keys);
    if !h.is_zero() {
        state.facing = face_toward(h);
        state.moving = true;
    } else {
        state.moving = false;
    }
    h
}

} // verus!
