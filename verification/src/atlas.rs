//! Layout of the sprite sheet: a grid of square tiles in which each facing
//! direction owns one row of walking frames.

use vstd::prelude::*;

verus! {

/// Side length of one square tile, in pixels.
pub const TILE_SIZE: u32 = 64;

/// Walking frames per row; the grid has as many columns.
pub const WALK_FRAMES: usize = 9;

/// Rows of the grid.
pub const ATLAS_ROWS: u32 = 12;

/// The direction the character looks in.
#[derive(Debug, Clone, Copy, PartialEq, Eq, Structural)]
pub enum Facing {
    Up,
    Left,
    Down,
    Right,
}

/// The row of the grid, counted from zero, that holds the walking frames of a
/// facing direction.
pub open spec fn row_of(facing: Facing) -> nat {
    match facing {
        Facing::Up => 8,
        Facing::Left => 9,
        Facing::Down => 10,
        Facing::Right => 11,
    }
}

/// The index of the first frame of a facing direction's row.
pub open spec fn row_start_of(facing: Facing) -> nat {
    row_of(facing) * (WALK_FRAMES as nat)
}

/// The index of a frame within a facing direction's row; a frame number past
/// the end of the row stands for the row's last frame.
pub open spec fn atlas_index_of(facing: Facing, frame_in_row: nat) -> nat {
    if frame_in_row < WALK_FRAMES {
        row_start_of(facing) + frame_in_row
    } else {
        row_start_of(facing) + (WALK_FRAMES - 1) as nat
    }
}

/// Whether an index names a tile of the grid.
pub open spec fn in_atlas(index: nat) -> bool {
    index < (WALK_FRAMES as nat) * (ATLAS_ROWS as nat)
}

/// Returns the row of the grid, counted from zero, that holds the walking
/// frames of `facing`.
pub fn row_zero_based(facing: Facing) -> (row: usize)
    ensures
        row == row_of(facing),
{
    match facing {
        Facing::Up => 8,
        Facing::Left => 9,
        Facing::Down => 10,
        Facing::Right => 11,
    }
}

/// Returns the starting atlas index of the row of `facing`.
pub fn row_start_index(facing: Facing) -> (index: usize)
    ensures
        index == row_start_of(facing),
{
    row_zero_based(facing) * WALK_FRAMES
}

/// Returns the atlas index of frame `frame_in_row` of the row of `facing`,
/// taking the last frame of the row when `frame_in_row` is past it.
pub fn atlas_index_for(facing: Facing, frame_in_row: usize) -> (index: usize)
    ensures
        index == atlas_index_of(facing, frame_in_row as nat),
{
    let column: usize = if frame_in_row < WALK_FRAMES {
        frame_in_row
    } else {
        WALK_FRAMES - 1
    };
    row_start_index(facing) + column
}

/// Every index that `atlas_index_of` gives lies in the grid, on the row of its
/// facing direction, in the column asked for (the last one for a frame number
/// past the row's end).
pub proof fn lemma_atlas_index_on_row(facing: Facing, frame_in_row: nat)
    ensures
        in_atlas(atlas_index_of(facing, frame_in_row)),
        atlas_index_of(facing, frame_in_row) / (WALK_FRAMES as nat) == row_of(facing),
        atlas_index_of(facing, frame_in_row) % (WALK_FRAMES as nat) == if frame_in_row
            < WALK_FRAMES {
            frame_in_row
        } else {
            (WALK_FRAMES - 1) as nat
        },
{
}

/// Two facing directions share no frame: an index that `atlas_index_of` gives
/// tells which direction it was made for.
pub proof fn lemma_rows_are_disjoint(a: Facing, i: nat, b: Facing, j: nat)
    requires
        atlas_index_of(a, i) == atlas_index_of(b, j),
    ensures
        a == b,
{
    lemma_atlas_index_on_row(a, i);
    lemma_atlas_index_on_row(b, j);
}

} // verus!
