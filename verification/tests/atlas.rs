use sprite_walker::atlas::{
    atlas_index_for, row_start_index, row_zero_based, Facing, ATLAS_ROWS, TILE_SIZE, WALK_FRAMES,
};

const ALL: [Facing; 4] = [Facing::Up, Facing::Left, Facing::Down, Facing::Right];

#[test]
fn grid_constants() {
    assert_eq!(TILE_SIZE, 64);
    assert_eq!(WALK_FRAMES, 9);
    assert_eq!(ATLAS_ROWS, 12);
}

#[test]
fn rows_of_the_four_directions() {
    assert_eq!(row_zero_based(Facing::Up), 8);
    assert_eq!(row_zero_based(Facing::Left), 9);
    assert_eq!(row_zero_based(Facing::Down), 10);
    assert_eq!(row_zero_based(Facing::Right), 11);
}

#[test]
fn row_starts() {
    assert_eq!(row_start_index(Facing::Up), 72);
    assert_eq!(row_start_index(Facing::Left), 81);
    assert_eq!(row_start_index(Facing::Down), 90);
    assert_eq!(row_start_index(Facing::Right), 99);
}

#[test]
fn index_within_row() {
    assert_eq!(atlas_index_for(Facing::Down, 0), 90);
    assert_eq!(atlas_index_for(Facing::Down, 3), 93);
    assert_eq!(atlas_index_for(Facing::Up, 8), 80);
    assert_eq!(atlas_index_for(Facing::Right, 8), 107);
}

#[test]
fn frame_past_row_end_is_last_frame() {
    assert_eq!(atlas_index_for(Facing::Left, 9), 89);
    assert_eq!(atlas_index_for(Facing::Left, 100), 89);
    assert_eq!(atlas_index_for(Facing::Right, usize::MAX), 107);
}

#[test]
fn every_index_lies_on_its_row_inside_the_grid() {
    for facing in ALL {
        for frame in 0..20usize {
            let index = atlas_index_for(facing, frame);
            assert!(index < WALK_FRAMES * 12);
            assert_eq!(index / WALK_FRAMES, row_zero_based(facing));
            assert_eq!(index % WALK_FRAMES, frame.min(WALK_FRAMES - 1));
        }
    }
}

#[test]
fn rows_share_no_frame() {
    for a in ALL {
        for b in ALL {
            for i in 0..9usize {
                for j in 0..9usize {
                    if atlas_index_for(a, i) == atlas_index_for(b, j) {
                        assert_eq!(a, b);
                        assert_eq!(i, j);
                    }
                }
            }
        }
    }
}
