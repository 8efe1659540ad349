//! Tests for the shape catalog, movement/rotation legality, landing
//! simulation, lock-in and line clearing.

use tetrs::block::{Block, ShapeKind};
use tetrs::config::{Config, ConfigBuilder};
use tetrs::factory::TetrominoFactory;
use tetrs::grid::Grid;
use tetrs::tetromino::{Direction, MoveResult, Rotation, RotationResult, Tetromino};

const ALL_KINDS: [ShapeKind; 7] = [
    ShapeKind::I,
    ShapeKind::J,
    ShapeKind::L,
    ShapeKind::O,
    ShapeKind::S,
    ShapeKind::T,
    ShapeKind::Z,
];

fn config() -> Config {
    ConfigBuilder::new().build()
}

fn empty_field() -> Vec<Vec<Option<Block>>> {
    vec![vec![None; 10]; 22]
}

fn spawn(kind: ShapeKind) -> Tetromino {
    TetrominoFactory::new().create_of_kind(kind, &config())
}

fn count_blocks(layout: &[[Option<Block>; 4]; 4]) -> usize {
    let mut count = 0;
    for row in layout.iter() {
        for cell in row.iter() {
            if cell.is_some() {
                count += 1;
            }
        }
    }
    count
}

#[test]
fn every_kind_and_orientation_has_exactly_four_blocks() {
    for kind in ALL_KINDS {
        let mut t = spawn(kind);
        for _ in 0..4 {
            assert_eq!(count_blocks(&t.blocks), 4, "{:?}", kind);
            assert_eq!(count_blocks(&t.shadow), 4, "{:?}", kind);
            t.rotate(Rotation::Clockwise);
        }
    }
}

#[test]
fn spawn_position_is_centred_in_the_hidden_buffer() {
    for kind in ALL_KINDS {
        let t = spawn(kind);
        assert_eq!((t.x, t.y), (3, 0));
    }
}

#[test]
fn random_pieces_spawn_well_formed() {
    let factory = TetrominoFactory::new();
    for _ in 0..50 {
        let t = factory.create(&config());
        assert_eq!((t.x, t.y), (3, 0));
        assert_eq!(count_blocks(&t.blocks), 4);
    }
}

#[test]
fn blocks_carry_their_kind_tag() {
    for kind in ALL_KINDS {
        let t = spawn(kind);
        for row in t.blocks.iter() {
            for cell in row.iter() {
                if let Some(block) = cell {
                    assert_eq!(block.kind, kind);
                    assert!(!block.shadow);
                }
            }
        }
        for row in t.shadow.iter() {
            for cell in row.iter() {
                if let Some(block) = cell {
                    assert_eq!(block.kind, kind);
                    assert!(block.shadow);
                }
            }
        }
    }
}

#[test]
fn shadow_variant_shares_the_geometry() {
    for kind in ALL_KINDS {
        let t = spawn(kind);
        for r in 0..4 {
            for c in 0..4 {
                assert_eq!(t.blocks[r][c].is_some(), t.shadow[r][c].is_some());
            }
        }
    }
}

#[test]
fn four_clockwise_rotations_restore_the_piece() {
    for kind in ALL_KINDS {
        let original = spawn(kind);
        let mut t = original;
        for _ in 0..4 {
            t.rotate(Rotation::Clockwise);
        }
        assert_eq!(t.blocks, original.blocks);
        assert_eq!(t.shadow, original.shadow);
        assert_eq!((t.x, t.y), (original.x, original.y));
    }
}

#[test]
fn four_counter_clockwise_rotations_restore_the_piece() {
    for kind in ALL_KINDS {
        let original = spawn(kind);
        let mut t = original;
        for _ in 0..4 {
            t.rotate(Rotation::CounterClockwise);
        }
        assert_eq!(t.blocks, original.blocks);
        assert_eq!(t.shadow, original.shadow);
    }
}

#[test]
fn opposite_rotations_cancel() {
    for kind in ALL_KINDS {
        let original = spawn(kind);
        let mut t = original;
        t.rotate(Rotation::Clockwise);
        t.rotate(Rotation::CounterClockwise);
        assert_eq!(t.blocks, original.blocks);
    }
}

#[test]
fn can_move_south_with_clear_space_is_allow() {
    let t = spawn(ShapeKind::I);
    let field = empty_field();
    assert_eq!(t.can_move(Direction::South, &field), MoveResult::Allow);
}

#[test]
fn can_move_south_one_row_above_a_full_stack_is_blocked() {
    let mut t = spawn(ShapeKind::I);
    // The I piece occupies row y + 1; at y = 19 it rests on row 20,
    // exactly one row above the full row 21.
    t.y = 19;
    let mut field = empty_field();
    for c in 0..10 {
        field[21][c] = Some(Block::new(ShapeKind::O, false));
    }
    assert_eq!(t.can_move(Direction::South, &field), MoveResult::Blocked);
}

#[test]
fn can_move_south_at_the_floor_is_blocked() {
    let mut t = spawn(ShapeKind::I);
    // At y = 20 the I piece occupies row 21, the bottom row.
    t.y = 20;
    let field = empty_field();
    assert_eq!(t.can_move(Direction::South, &field), MoveResult::Blocked);
}

#[test]
fn can_move_west_at_column_zero_is_deny() {
    let mut t = spawn(ShapeKind::I);
    // The I piece's occupied cells start at its box's first column.
    t.x = 0;
    let field = empty_field();
    assert_eq!(t.can_move(Direction::West, &field), MoveResult::Deny);
}

#[test]
fn can_move_east_at_the_right_wall_is_deny() {
    let mut t = spawn(ShapeKind::I);
    // At x = 6 the I piece occupies columns 6..=9.
    t.x = 6;
    let field = empty_field();
    assert_eq!(t.can_move(Direction::East, &field), MoveResult::Deny);
}

#[test]
fn can_move_sideways_into_a_stack_is_blocked() {
    let t = spawn(ShapeKind::I);
    // The spawned I piece occupies row 1, columns 3..=6.
    let mut field = empty_field();
    field[1][7] = Some(Block::new(ShapeKind::O, false));
    assert_eq!(t.can_move(Direction::East, &field), MoveResult::Blocked);

    let mut field = empty_field();
    field[1][2] = Some(Block::new(ShapeKind::O, false));
    assert_eq!(t.can_move(Direction::West, &field), MoveResult::Blocked);
}

#[test]
fn can_rotate_in_the_open_is_allow() {
    for kind in ALL_KINDS {
        let t = spawn(kind);
        let field = empty_field();
        assert_eq!(t.can_rotate(Rotation::Clockwise, &field), RotationResult::Allow);
        assert_eq!(t.can_rotate(Rotation::CounterClockwise, &field), RotationResult::Allow);
    }
}

#[test]
fn rotation_against_the_wall_is_denied() {
    let mut t = spawn(ShapeKind::I);
    t.rotate(Rotation::Clockwise);
    // Vertical I (East orientation, occupying its box's third column),
    // pushed against the left wall: turning it would reach columns left
    // of the field.
    t.x = -2;
    let field = empty_field();
    assert_eq!(t.can_rotate(Rotation::Clockwise, &field), RotationResult::Deny);
}

#[test]
fn rotation_into_a_locked_block_is_denied() {
    let t = spawn(ShapeKind::T);
    // Turning the spawned T clockwise would occupy (2, 4); lock a block
    // there.
    let mut field = empty_field();
    field[2][4] = Some(Block::new(ShapeKind::O, false));
    assert_eq!(t.can_rotate(Rotation::Clockwise, &field), RotationResult::Deny);
    // The counter-clockwise turn needs (2, 4) as well.
    assert_eq!(t.can_rotate(Rotation::CounterClockwise, &field), RotationResult::Deny);
}

#[test]
fn find_landing_xy_on_an_empty_field() {
    let t = spawn(ShapeKind::I);
    let field = empty_field();
    // The I piece's lowest cells sit in row y + 1: free fall stops at
    // y = 20, where they rest on the bottom row.
    assert_eq!(t.find_landing_xy(&field), (3, 20));
}

#[test]
fn find_landing_xy_on_a_stack() {
    let t = spawn(ShapeKind::O);
    let mut field = empty_field();
    for c in 0..10 {
        field[18][c] = Some(Block::new(ShapeKind::L, false));
    }
    // The O piece occupies rows y and y + 1; it rests when row y + 2 is
    // the stack row 18.
    assert_eq!(t.find_landing_xy(&field), (3, 16));
}

#[test]
fn store_tetromino_writes_the_covered_cells() {
    let mut grid = Grid::new();
    let mut t = spawn(ShapeKind::O);
    t.y = 20;
    grid.store_tetromino(&t);

    let mut occupied = 0;
    for r in 0..22 {
        for c in 0..10 {
            if grid.boxes[r][c].is_some() {
                occupied += 1;
            }
        }
    }
    assert_eq!(occupied, 4);
    // The O piece's cells sit in its box's middle columns.
    assert_eq!(grid.boxes[20][4], Some(Block::new(ShapeKind::O, false)));
    assert_eq!(grid.boxes[20][5], Some(Block::new(ShapeKind::O, false)));
    assert_eq!(grid.boxes[21][4], Some(Block::new(ShapeKind::O, false)));
    assert_eq!(grid.boxes[21][5], Some(Block::new(ShapeKind::O, false)));
}

#[test]
fn remove_complete_lines_on_a_grid_without_complete_rows() {
    let mut grid = Grid::new();
    let marker = Some(Block::new(ShapeKind::J, false));
    grid.boxes[21][0] = marker;
    grid.boxes[10][9] = marker;
    let before = grid.boxes.clone();

    assert_eq!(grid.remove_complete_lines(&config()), 0);
    assert_eq!(grid.boxes, before);
}

#[test]
fn remove_complete_lines_clears_one_full_row() {
    let mut grid = Grid::new();
    let filler = Some(Block::new(ShapeKind::S, false));
    let marker = Some(Block::new(ShapeKind::J, false));
    for c in 0..10 {
        grid.boxes[21][c] = filler;
    }
    grid.boxes[20][0] = marker;

    assert_eq!(grid.remove_complete_lines(&config()), 1);
    // The marker row shifted down by one; the vacated top row is empty.
    assert_eq!(grid.boxes[21][0], marker);
    for c in 1..10 {
        assert_eq!(grid.boxes[21][c], None);
    }
    for c in 0..10 {
        assert_eq!(grid.boxes[20][c], None);
        assert_eq!(grid.boxes[0][c], None);
    }
}

#[test]
fn remove_complete_lines_preserves_the_order_of_surviving_rows() {
    let mut grid = Grid::new();
    let filler = Some(Block::new(ShapeKind::S, false));
    let upper = Some(Block::new(ShapeKind::J, false));
    let lower = Some(Block::new(ShapeKind::L, false));
    // Complete rows 19 and 21, with distinct partial rows at 18 and 20.
    for c in 0..10 {
        grid.boxes[19][c] = filler;
        grid.boxes[21][c] = filler;
    }
    grid.boxes[18][7] = upper;
    grid.boxes[20][2] = lower;

    assert_eq!(grid.remove_complete_lines(&config()), 2);
    // Both survivors moved down, keeping their relative order.
    assert_eq!(grid.boxes[21][2], lower);
    assert_eq!(grid.boxes[20][7], upper);
    assert_eq!(grid.boxes[19][7], None);
    assert_eq!(grid.boxes[18][7], None);
}

#[test]
fn remove_complete_lines_clears_four_rows_at_once() {
    let mut grid = Grid::new();
    let filler = Some(Block::new(ShapeKind::I, false));
    for r in 18..22 {
        for c in 0..10 {
            grid.boxes[r][c] = filler;
        }
    }
    assert_eq!(grid.remove_complete_lines(&config()), 4);
    for r in 0..22 {
        for c in 0..10 {
            assert_eq!(grid.boxes[r][c], None);
        }
    }
}

#[test]
fn an_almost_complete_row_is_not_cleared() {
    let mut grid = Grid::new();
    let filler = Some(Block::new(ShapeKind::T, false));
    for c in 0..9 {
        grid.boxes[21][c] = filler;
    }
    assert_eq!(grid.remove_complete_lines(&config()), 0);
    assert_eq!(grid.boxes[21][0], filler);
}

#[test]
fn apply_tetromino_writes_the_live_piece_into_the_overlay() {
    let mut grid = Grid::new();
    let t = spawn(ShapeKind::I);
    grid.apply_tetromino(&t, &config());

    // The spawned I piece occupies row 1, columns 3..=6.
    for c in 3..7 {
        assert_eq!(grid.overlay[1][c], Some(Block::new(ShapeKind::I, false)));
    }
    // Nothing else, ghost included, with the shadow disabled.
    let mut occupied = 0;
    for r in 0..22 {
        for c in 0..10 {
            if grid.overlay[r][c].is_some() {
                occupied += 1;
            }
        }
    }
    assert_eq!(occupied, 4);
    // The permanent cells are untouched.
    assert_eq!(grid.boxes[1][3], None);
}

#[test]
fn apply_tetromino_with_shadow_draws_the_ghost_at_the_landing_row() {
    let shadow_config = ConfigBuilder::new().shadow(true).build();
    let mut grid = Grid::new();
    let t = spawn(ShapeKind::I);
    grid.apply_tetromino(&t, &shadow_config);

    // Live piece in row 1, ghost at the landing position: row 21.
    for c in 3..7 {
        assert_eq!(grid.overlay[1][c], Some(Block::new(ShapeKind::I, false)));
        assert_eq!(grid.overlay[21][c], Some(Block::new(ShapeKind::I, true)));
    }
}

#[test]
fn apply_tetromino_live_piece_takes_precedence_over_the_ghost() {
    let shadow_config = ConfigBuilder::new().shadow(true).build();
    let mut grid = Grid::new();
    let mut t = spawn(ShapeKind::O);
    // Already resting on the floor: the ghost coincides with the piece.
    t.y = 20;
    grid.apply_tetromino(&t, &shadow_config);

    assert_eq!(grid.overlay[20][4], Some(Block::new(ShapeKind::O, false)));
    assert_eq!(grid.overlay[21][5], Some(Block::new(ShapeKind::O, false)));
}

#[test]
fn apply_tetromino_rebuilds_the_overlay_from_scratch() {
    let mut grid = Grid::new();
    let t = spawn(ShapeKind::I);
    grid.apply_tetromino(&t, &config());

    let mut moved = t;
    moved.move_right();
    grid.apply_tetromino(&moved, &config());

    // Only the piece's new cells remain; the old frame's cells are gone.
    assert_eq!(grid.overlay[1][3], None);
    for c in 4..8 {
        assert_eq!(grid.overlay[1][c], Some(Block::new(ShapeKind::I, false)));
    }
}
