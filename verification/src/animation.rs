//! The walk-cycle state machine: which frame of the sheet is shown next.

use crate::atlas::{
    in_atlas, row_of, row_start_index, row_start_of, row_zero_based, Facing, WALK_FRAMES,
};
use crate::clock::{lemma_tick_is_determined, FrameTimer, Span};
use vstd::prelude::*;

verus! {

/// What the animation remembers of the character between two frames.
#[derive(Debug, Clone, Copy, PartialEq, Eq, Structural)]
pub struct AnimationState {
    /// The direction the character looks in.
    pub facing: Facing,
    /// Whether the character moves in the current frame.
    pub moving: bool,
    /// Whether it moved in the frame before.
    pub was_moving: bool,
}

/// The direction a newly spawned character looks in.
pub open spec fn spawn_facing() -> Facing {
    Facing::Down
}

/// Whether a frame index lies off the row of the state's facing direction, so
/// that the animation first snaps to that row's start.
pub open spec fn snaps(state: AnimationState, index: nat) -> bool {
    index / (WALK_FRAMES as nat) != row_of(state.facing)
}

/// Whether the walk cycle moves on by one frame: on the first frame of a
/// movement at once, during a movement whenever the timer fired.
pub open spec fn steps(state: AnimationState, fired: bool) -> bool {
    state.moving && (!state.was_moving || fired)
}

/// The frame shown after one update, for a state, the frame shown before and
/// whether the timer fired.
///
/// A frame off the facing direction's row counts as column 0 of that row. A
/// step goes to the next column of the row and from the last column back to
/// the first; without a step the frame stays, or is the row's first one after
/// a snap.
pub open spec fn frame_after(state: AnimationState, index: nat, fired: bool) -> nat {
    let column = if snaps(state, index) {
        0
    } else {
        index % (WALK_FRAMES as nat)
    };
    if steps(state, fired) {
        row_start_of(state.facing) + (column + 1) % (WALK_FRAMES as nat)
    } else if snaps(state, index) {
        row_start_of(state.facing)
    } else {
        index
    }
}

/// The state after one update: the frame's movement becomes the previous one.
pub open spec fn state_after(state: AnimationState) -> AnimationState {
    AnimationState { facing: state.facing, moving: state.moving, was_moving: state.moving }
}

/// Whether the update consults the timer: only while a movement goes on.
pub open spec fn consults_timer(state: AnimationState) -> bool {
    state.moving && state.was_moving
}

/// The timer as it stands when the update comes to tick it: restarted where
/// the frame snapped, untouched otherwise.
pub open spec fn timer_at_tick(state: AnimationState, index: nat, timer: FrameTimer) -> FrameTimer {
    if snaps(state, index) {
        timer.restarted()
    } else {
        timer
    }
}

/// Whether `next` is the timer that one update leaves behind.
///
/// While a movement goes on the timer is ticked by `delta`, after a restart
/// where the frame snapped. Where a movement starts or stops it is restarted.
/// At rest it is restarted by a snap and untouched otherwise.
pub open spec fn timer_after(
    state: AnimationState,
    index: nat,
    timer: FrameTimer,
    delta: Span,
    next: FrameTimer,
) -> bool {
    if consults_timer(state) {
        timer_at_tick(state, index, timer).ticks_to(delta, next)
    } else if state.moving || state.was_moving {
        next == timer.restarted()
    } else {
        next == timer_at_tick(state, index, timer)
    }
}

/// Whether the timer fires in an update; `false` where it is not consulted.
pub open spec fn fires_in_update(
    state: AnimationState,
    index: nat,
    timer: FrameTimer,
    delta: Span,
) -> bool {
    consults_timer(state) && timer_at_tick(state, index, timer).fires(delta)
}

/// The frame that `count` steps of the walk cycle lead to from `index`, for a
/// character that keeps moving in one direction while the timer fires on
/// every update.
pub open spec fn walked(facing: Facing, index: nat, count: nat) -> nat
    decreases count,
{
    if count == 0 {
        index
    } else {
        frame_after(
            AnimationState { facing, moving: true, was_moving: true },
            walked(facing, index, (count - 1) as nat),
            true,
        )
    }
}

/// After an update the frame shown lies in the grid, on the row of the
/// facing direction: the next update does not snap unless the character
/// turns.
pub proof fn lemma_frame_stays_on_row(state: AnimationState, index: nat, fired: bool)
    ensures
        in_atlas(frame_after(state, index, fired)),
        !snaps(state_after(state), frame_after(state, index, fired)),
{
}

/// A character at rest keeps the frame it shows, whatever the timer does, as
/// long as that frame lies on the row of its facing direction.
pub proof fn lemma_rest_keeps_frame(state: AnimationState, index: nat, fired: bool)
    requires
        !state.moving,
        !snaps(state, index),
    ensures
        frame_after(state, index, fired) == index,
{
}

/// A step moves the frame one column on within its row, and from the last
/// column back to the first.
pub proof fn lemma_step_moves_one_column(state: AnimationState, index: nat, fired: bool)
    requires
        steps(state, fired),
        !snaps(state, index),
    ensures
        frame_after(state, index, fired) / (WALK_FRAMES as nat) == index / (WALK_FRAMES as nat),
        frame_after(state, index, fired) % (WALK_FRAMES as nat) == (index % (WALK_FRAMES as nat)
            + 1) % (WALK_FRAMES as nat),
{
}

/// Where a movement starts, the frame moves on at once, whether or not the
/// timer fired.
pub proof fn lemma_start_steps_at_once(state: AnimationState, index: nat, fired: bool)
    requires
        state.moving,
        !state.was_moving,
    ensures
        frame_after(state, index, fired) == frame_after(state, index, true),
        frame_after(state, index, fired) != index,
{
}

/// The walk cycle closes: as many steps as a row has frames lead back to the
/// frame they began at.
pub proof fn lemma_walk_cycle_closes(facing: Facing, index: nat)
    requires
        index / (WALK_FRAMES as nat) == row_of(facing),
    ensures
        walked(facing, index, WALK_FRAMES as nat) == index,
{
    lemma_walked_column(facing, index, WALK_FRAMES as nat);
}

/// Steps of the walk cycle add up: from a frame on the row of the facing
/// direction, `count` steps lead to the column `count` further on, counted
/// round the row.
pub proof fn lemma_walked_column(facing: Facing, index: nat, count: nat)
    requires
        index / (WALK_FRAMES as nat) == row_of(facing),
    ensures
        walked(facing, index, count) == row_start_of(facing) + (index % (WALK_FRAMES as nat)
            + count) % (WALK_FRAMES as nat),
    decreases count,
{
    if count > 0 {
        let before = (count - 1) as nat;
        lemma_walked_column(facing, index, before);
        let column = index % 9;
        let at = row_start_of(facing) + (column + before) % 9;
        assert(walked(facing, index, before) == at);
        assert(at / 9 == row_of(facing) && at % 9 == (column + before) % 9);
        assert(((column + before) % 9 + 1) % 9 == (column + count) % 9);
    }
}

/// An update has one outcome for the timer: two timers that it may leave
/// behind are the same timer.
pub proof fn lemma_update_is_determined(
    state: AnimationState,
    index: nat,
    timer: FrameTimer,
    delta: Span,
    a: FrameTimer,
    b: FrameTimer,
)
    requires
        timer_after(state, index, timer, delta, a),
        timer_after(state, index, timer, delta, b),
    ensures
        a == b,
{
    if consults_timer(state) {
        lemma_tick_is_determined(timer_at_tick(state, index, timer), delta, a, b);
    }
}

/// A timer that is not consulted does not fire, and the frame shown then does
/// not depend on the time that passed.
pub proof fn lemma_unconsulted_timer_is_silent(
    state: AnimationState,
    index: nat,
    timer: FrameTimer,
    delta: Span,
    other: Span,
)
    requires
        !consults_timer(state),
    ensures
        !fires_in_update(state, index, timer, delta),
        frame_after(state, index, fires_in_update(state, index, timer, delta)) == frame_after(
            state,
            index,
            fires_in_update(state, index, timer, other),
        ),
{
}

impl AnimationState {
    /// The state of a newly spawned character: looking down, at rest.
    pub fn at_spawn() -> (state: AnimationState)
        ensures
            state == (AnimationState {
                facing: spawn_facing(),
                moving: false,
                was_moving: false,
            }),
    {
        AnimationState { facing: Facing::Down, moving: false, was_moving: false }
    }
}

/// The frame a newly spawned character shows: the first of its row.
pub fn spawn_frame() -> (index: usize)
    ensures
        index == row_start_of(spawn_facing()),
        index == 90,
{
    row_start_index(Facing::Down)
}

/// Returns the frame to show after one update, given the frame shown before
/// and whether the timer fired in this update.
pub fn next_frame(state: &AnimationState, index: usize, fired: bool) -> (next: usize)
    ensures
        next == frame_after(*state, index as nat, fired),
{
    let snapped: bool = index / WALK_FRAMES != row_zero_based(state.facing);
    let column: usize = if snapped {
        0
    } else {
        index % WALK_FRAMES
    };
    if state.moving && (!state.was_moving || fired) {
        row_start_index(state.facing) + (column + 1) % WALK_FRAMES
    } else if snapped {
        row_start_index(state.facing)
    } else {
        index
    }
}

/// Runs one update of the animation: moves the timer on, picks the frame to
/// show and records the frame's movement as the previous one.
pub fn animate(
    state: &mut AnimationState,
    timer: &mut FrameTimer,
    index: usize,
    delta: Span,
) -> (next: usize)
    requires
        old(timer).wf(),
        delta.wf(),
    ensures
        next == frame_after(
            *old(state),
            index as nat,
            fires_in_update(*old(state), index as nat, *old(timer), delta),
        ),
        *final(state) == state_after(*old(state)),
        timer_after(*old(state), index as nat, *old(timer), delta, *final(timer)),
        final(timer).wf(),
{
    let snapped: bool = index / WALK_FRAMES != row_zero_based(state.facing);
    if snapped {
        timer.reset();
    }
    let mut fired: bool = false;
    if state.moving {
        if !state.was_moving {
            timer.reset();
        } else {
            fired = timer.tick(delta);
        }
    } else if state.was_moving {
        timer.reset();
    }
    let next: usize = next_frame(state, index, fired);
    state.was_moving = state.moving;
    next
}

} // verus!
