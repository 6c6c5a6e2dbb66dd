use tetris::grid::{Grid, GRID_COLS, GRID_ROWS};
use tetris::shapes::{Blocks, I_BLOCKS, L1_BLOCKS, L2_BLOCKS, T_BLOCKS, Z1_BLOCKS, Z2_BLOCKS};
use tetris::tetromino::{rotate_value, Point, Tetromino};

fn piece(blocks: Blocks, x: i32, y: i32, rotation: usize) -> Tetromino {
    Tetromino { pos: Point { x, y }, blocks, rotation }
}

fn is_table_shape(blocks: &Blocks) -> bool {
    [L1_BLOCKS, L2_BLOCKS, T_BLOCKS, Z1_BLOCKS, Z2_BLOCKS, I_BLOCKS].contains(blocks)
}

fn occupied_cells(grid: &Grid) -> Vec<(usize, usize)> {
    let mut cells = Vec::new();
    for x in 0..GRID_COLS {
        for y in 0..GRID_ROWS {
            if grid.is_occupied(x, y) {
                cells.push((x, y));
            }
        }
    }
    cells
}

#[test]
fn rotate_value_wraps_below_the_minimum() {
    assert_eq!(rotate_value(-1i8, 0, 3), 3);
    assert_eq!(rotate_value(-5i8, 0, 3), 3);
    assert_eq!(rotate_value(1u32, 2, 5), 5);
}

#[test]
fn rotate_value_wraps_above_the_maximum() {
    assert_eq!(rotate_value(4i8, 0, 3), 0);
    assert_eq!(rotate_value(10i8, 0, 3), 0);
    assert_eq!(rotate_value(7u32, 2, 5), 2);
}

#[test]
fn rotate_value_keeps_a_value_in_range() {
    for value in 0..=3 {
        assert_eq!(rotate_value(value, 0, 3), value);
    }
    assert_eq!(rotate_value(2u32, 2, 5), 2);
    assert_eq!(rotate_value(5u32, 2, 5), 5);
}

#[test]
fn rotate_value_takes_any_ordered_type() {
    assert_eq!(rotate_value(3.5f64, 0.0, 3.0), 0.0);
    assert_eq!(rotate_value(-0.5f64, 0.0, 3.0), 3.0);
    assert_eq!(rotate_value(1.25f64, 0.0, 3.0), 1.25);
    assert_eq!(rotate_value('z', 'b', 'y'), 'b');
}

#[test]
fn new_piece_is_spawned_in_the_top_row_centred() {
    for _ in 0..50 {
        let piece = Tetromino::new();
        assert_eq!(piece.pos, Point { x: 5, y: 0 });
        assert_eq!(piece.rotation, 0);
        assert!(is_table_shape(&piece.blocks));
    }
}

#[test]
fn reset_goes_back_to_the_spawn_state() {
    let mut piece = piece(T_BLOCKS, 2, 17, 3);
    piece.reset();
    assert_eq!(piece.pos, Point { x: 5, y: 0 });
    assert_eq!(piece.rotation, 0);
    assert!(is_table_shape(&piece.blocks));
}

#[test]
fn can_fall_until_the_floor() {
    let grid = Grid::new();
    // The flat I covers row y + 1.
    assert!(piece(I_BLOCKS, 5, 0, 0).can_fall(&grid));
    assert!(piece(I_BLOCKS, 5, 27, 0).can_fall(&grid));
    assert!(!piece(I_BLOCKS, 5, 28, 0).can_fall(&grid));
    // The upright I covers rows y to y + 3.
    assert!(piece(I_BLOCKS, 5, 25, 1).can_fall(&grid));
    assert!(!piece(I_BLOCKS, 5, 26, 1).can_fall(&grid));
}

#[test]
fn can_fall_is_stopped_by_an_occupied_cell() {
    let mut grid = Grid::new();
    grid.set(6, 10);
    assert!(!piece(I_BLOCKS, 5, 8, 0).can_fall(&grid));
    assert!(!piece(I_BLOCKS, 3, 8, 0).can_fall(&grid));
    assert!(piece(I_BLOCKS, 7, 8, 0).can_fall(&grid));
    assert!(piece(I_BLOCKS, 2, 8, 0).can_fall(&grid));
    assert!(piece(I_BLOCKS, 5, 7, 0).can_fall(&grid));
}

#[test]
fn can_fall_from_above_the_top() {
    let grid = Grid::new();
    assert!(piece(T_BLOCKS, 5, -3, 0).can_fall(&grid));
}

#[test]
fn can_fall_fails_closed_outside_the_walls() {
    let grid = Grid::new();
    assert!(!piece(I_BLOCKS, -1, 5, 0).can_fall(&grid));
    assert!(!piece(I_BLOCKS, 9, 5, 0).can_fall(&grid));
    assert!(!piece(I_BLOCKS, i32::MAX, i32::MAX, 0).can_fall(&grid));
    assert!(!piece(I_BLOCKS, i32::MIN, i32::MIN, 0).can_fall(&grid));
}

#[test]
fn can_move_until_the_walls() {
    let grid = Grid::new();
    let left = piece(I_BLOCKS, 0, 3, 0);
    assert!(!left.can_move(&grid, -1));
    assert!(left.can_move(&grid, 1));
    let right = piece(I_BLOCKS, 8, 3, 0);
    assert!(right.can_move(&grid, -1));
    assert!(!right.can_move(&grid, 1));
}

#[test]
fn can_move_counts_cells_and_not_the_box() {
    let grid = Grid::new();
    // The first state of L1 leaves column 0 of its box empty.
    let l1 = piece(L1_BLOCKS, 0, 3, 0);
    assert!(l1.can_move(&grid, -1));
    assert!(!piece(L1_BLOCKS, -1, 3, 0).can_move(&grid, -1));
    // The first state of T leaves column 3 of its box empty.
    assert!(piece(T_BLOCKS, 8, 3, 0).can_move(&grid, 1));
    assert!(!piece(T_BLOCKS, 9, 3, 0).can_move(&grid, 1));
}

#[test]
fn can_move_is_stopped_by_an_occupied_cell() {
    let mut grid = Grid::new();
    grid.set(4, 1);
    let piece = piece(I_BLOCKS, 5, 0, 0);
    assert!(!piece.can_move(&grid, -1));
    assert!(piece.can_move(&grid, 1));
}

#[test]
fn can_rotate_needs_room_between_the_walls() {
    let grid = Grid::new();
    // The upright I at column 11 cannot lie down over columns 10 to 13.
    assert!(!piece(I_BLOCKS, 10, 5, 1).can_rotate(&grid, 0));
    assert!(piece(I_BLOCKS, 8, 5, 1).can_rotate(&grid, 0));
    assert!(!piece(I_BLOCKS, -1, 5, 1).can_rotate(&grid, 0));
    assert!(piece(I_BLOCKS, -1, 5, 1).can_rotate(&grid, 1));
}

#[test]
fn can_rotate_needs_room_above_the_floor() {
    let grid = Grid::new();
    // The flat I in row 28 cannot stand up over rows 27 to 30.
    assert!(!piece(I_BLOCKS, 3, 27, 0).can_rotate(&grid, 1));
    assert!(piece(I_BLOCKS, 3, 26, 0).can_rotate(&grid, 1));
}

#[test]
fn can_rotate_is_stopped_by_an_occupied_cell() {
    let mut grid = Grid::new();
    grid.set(4, 28);
    assert!(!piece(I_BLOCKS, 3, 26, 0).can_rotate(&grid, 1));
    assert!(piece(I_BLOCKS, 3, 26, 0).can_rotate(&grid, 0));
    assert!(piece(I_BLOCKS, 3, 24, 0).can_rotate(&grid, 1));
}

#[test]
fn can_rotate_above_the_top_is_free() {
    let grid = Grid::new();
    assert!(piece(I_BLOCKS, 3, -2, 0).can_rotate(&grid, 1));
}

#[test]
fn place_to_grid_stamps_the_cells_of_the_piece() {
    let mut grid = Grid::new();
    // The last state of L2: a column of three with a foot to the left.
    piece(L2_BLOCKS, 2, 3, 3).place_to_grid(&mut grid);
    assert_eq!(occupied_cells(&grid), vec![(3, 5), (4, 3), (4, 4), (4, 5)]);
}

#[test]
fn place_to_grid_keeps_what_is_there() {
    let mut grid = Grid::new();
    grid.set(0, 0);
    grid.set(5, 1);
    piece(I_BLOCKS, 5, 0, 0).place_to_grid(&mut grid);
    assert_eq!(occupied_cells(&grid), vec![(0, 0), (5, 1), (6, 1), (7, 1), (8, 1)]);
}

#[test]
fn fall_moves_a_free_piece_one_row_down() {
    let mut grid = Grid::new();
    grid.set(0, 29);
    let before = grid;
    let mut piece = piece(Z1_BLOCKS, 3, 4, 2);
    assert!(!piece.fall(&mut grid));
    assert_eq!(piece.pos, Point { x: 3, y: 5 });
    assert_eq!(piece.rotation, 2);
    assert_eq!(piece.blocks, Z1_BLOCKS);
    assert_eq!(grid, before);
}

#[test]
fn fall_locks_a_piece_on_the_floor() {
    let mut grid = Grid::new();
    let mut piece = piece(I_BLOCKS, 4, 28, 0);
    assert!(piece.fall(&mut grid));
    assert_eq!(occupied_cells(&grid), vec![(4, 29), (5, 29), (6, 29), (7, 29)]);
    assert_eq!(piece.pos, Point { x: 5, y: 0 });
    assert_eq!(piece.rotation, 0);
    assert!(is_table_shape(&piece.blocks));
}

#[test]
fn fall_locks_a_piece_on_an_occupied_cell() {
    let mut grid = Grid::new();
    grid.set(5, 10);
    // The third state of T: a bar of three with a stem below its middle.
    let mut piece = piece(T_BLOCKS, 4, 8, 2);
    assert!(piece.fall(&mut grid));
    assert_eq!(occupied_cells(&grid), vec![(4, 8), (5, 8), (5, 9), (5, 10), (6, 8)]);
    assert_eq!(piece.pos, Point { x: 5, y: 0 });
    assert_eq!(piece.rotation, 0);
}

#[test]
fn fall_locks_exactly_when_the_piece_cannot_fall() {
    let mut grid = Grid::new();
    grid.set(7, 20);
    for blocks in [L1_BLOCKS, L2_BLOCKS, T_BLOCKS, Z1_BLOCKS, Z2_BLOCKS, I_BLOCKS] {
        for rotation in 0..4 {
            for y in 0..GRID_ROWS as i32 {
                let mut piece = piece(blocks, 5, y, rotation);
                let in_bounds = (0..4).all(|cy| {
                    (0..4).all(|cx| blocks[rotation][cy][cx] != 1 || y + (cy as i32) < 30)
                });
                if !in_bounds {
                    continue;
                }
                let mut scratch = grid;
                let free = piece.can_fall(&scratch);
                let locked = piece.fall(&mut scratch);
                assert_eq!(locked, !free);
                if !locked {
                    assert_eq!(piece.pos, Point { x: 5, y: y + 1 });
                    assert_eq!(piece.rotation, rotation);
                    assert_eq!(scratch, grid);
                }
            }
        }
    }
}

#[test]
fn move_tetromino_changes_the_column_only() {
    let mut grid = Grid::new();
    let before = grid;
    let mut piece = piece(L1_BLOCKS, 4, 9, 1);
    assert!(piece.move_tetromino(&mut grid, 1));
    assert_eq!(piece, Tetromino { pos: Point { x: 5, y: 9 }, blocks: L1_BLOCKS, rotation: 1 });
    assert!(piece.move_tetromino(&mut grid, -1));
    assert!(piece.move_tetromino(&mut grid, -1));
    assert_eq!(piece, Tetromino { pos: Point { x: 3, y: 9 }, blocks: L1_BLOCKS, rotation: 1 });
    assert_eq!(grid, before);
}

#[test]
fn move_tetromino_stays_when_blocked() {
    let mut grid = Grid::new();
    let mut piece = piece(I_BLOCKS, 8, 9, 0);
    assert!(!piece.move_tetromino(&mut grid, 1));
    assert_eq!(piece, Tetromino { pos: Point { x: 8, y: 9 }, blocks: I_BLOCKS, rotation: 0 });
    grid.set(7, 10);
    assert!(!piece.move_tetromino(&mut grid, -1));
    assert_eq!(piece.pos, Point { x: 8, y: 9 });
}

#[test]
fn rotate_backwards_from_the_first_state_gives_the_last() {
    let grid = Grid::new();
    let mut piece = piece(T_BLOCKS, 5, 5, 0);
    piece.rotate(&grid, -1);
    assert_eq!(piece.rotation, 3);
}

#[test]
fn rotate_forwards_from_the_last_state_gives_the_first() {
    let grid = Grid::new();
    let mut piece = piece(T_BLOCKS, 5, 5, 3);
    piece.rotate(&grid, 1);
    assert_eq!(piece.rotation, 0);
}

#[test]
fn rotate_goes_round_in_both_directions() {
    let grid = Grid::new();
    let mut piece = piece(L2_BLOCKS, 5, 5, 0);
    for expected in [1, 2, 3, 0, 1] {
        piece.rotate(&grid, 1);
        assert_eq!(piece.rotation, expected);
    }
    for expected in [0, 3, 2, 1, 0] {
        piece.rotate(&grid, -1);
        assert_eq!(piece.rotation, expected);
    }
}

#[test]
fn rotate_keeps_the_position_and_the_shape() {
    let grid = Grid::new();
    let mut piece = piece(Z2_BLOCKS, 6, 11, 2);
    piece.rotate(&grid, 1);
    assert_eq!(piece, Tetromino { pos: Point { x: 6, y: 11 }, blocks: Z2_BLOCKS, rotation: 3 });
}

#[test]
fn rotate_is_not_made_when_it_collides() {
    let mut grid = Grid::new();
    // No search for another place: the upright I at the right wall stays.
    let mut at_wall = piece(I_BLOCKS, 10, 5, 1);
    at_wall.rotate(&grid, 1);
    assert_eq!(at_wall, Tetromino { pos: Point { x: 10, y: 5 }, blocks: I_BLOCKS, rotation: 1 });
    at_wall.rotate(&grid, -1);
    assert_eq!(at_wall.rotation, 1);
    // The flat I above the floor stays flat.
    let mut at_floor = piece(I_BLOCKS, 3, 27, 0);
    at_floor.rotate(&grid, 1);
    assert_eq!(at_floor.rotation, 0);
    // An occupied cell in the way.
    grid.set(4, 12);
    let mut hemmed = piece(I_BLOCKS, 3, 10, 0);
    hemmed.rotate(&grid, -1);
    assert_eq!(hemmed.rotation, 0);
}

#[test]
fn fall_of_a_free_piece_outside_the_playfield() {
    // Above the top edge the piece is free to fall, and only a lock needs
    // the piece on the playfield.
    let mut grid = Grid::new();
    let mut piece = piece(I_BLOCKS, 5, -3, 0);
    assert!(!piece.fall(&mut grid));
    assert_eq!(piece, Tetromino { pos: Point { x: 5, y: -2 }, blocks: I_BLOCKS, rotation: 0 });
    assert_eq!(grid, Grid::new());
}

#[test]
fn shape_is_the_current_rotation_state() {
    assert_eq!(
        piece(L1_BLOCKS, 3, 3, 2).shape(),
        [[0, 0, 0, 1], [0, 1, 1, 1], [0, 0, 0, 0], [0, 0, 0, 0]]
    );
    assert_eq!(
        piece(I_BLOCKS, 3, 3, 1).shape(),
        [[0, 1, 0, 0], [0, 1, 0, 0], [0, 1, 0, 0], [0, 1, 0, 0]]
    );
}

#[test]
fn has_table_shape_knows_the_six_shapes() {
    for blocks in [L1_BLOCKS, L2_BLOCKS, T_BLOCKS, Z1_BLOCKS, Z2_BLOCKS, I_BLOCKS] {
        assert!(piece(blocks, 0, 0, 0).has_table_shape());
    }
    assert!(!piece([[[1; 4]; 4]; 4], 0, 0, 0).has_table_shape());
    assert!(!piece([[[0; 4]; 4]; 4], 0, 0, 0).has_table_shape());
    let mut bent = I_BLOCKS;
    bent[3][3][3] = 1;
    assert!(!piece(bent, 0, 0, 0).has_table_shape());
    let mut chipped = L1_BLOCKS;
    chipped[0][0][1] = 0;
    assert!(!piece(chipped, 0, 0, 0).has_table_shape());
}

#[test]
fn is_in_bounds_counts_cells_and_not_the_box() {
    assert!(piece(I_BLOCKS, 0, 0, 0).is_in_bounds());
    assert!(piece(I_BLOCKS, 8, 28, 0).is_in_bounds());
    assert!(!piece(I_BLOCKS, 9, 5, 0).is_in_bounds());
    assert!(!piece(I_BLOCKS, -1, 5, 0).is_in_bounds());
    assert!(!piece(I_BLOCKS, 5, 29, 0).is_in_bounds());
    assert!(piece(I_BLOCKS, 5, -1, 0).is_in_bounds());
    assert!(!piece(I_BLOCKS, 5, -2, 0).is_in_bounds());
    // The upright bar stands in column 1 of its box.
    assert!(piece(I_BLOCKS, -1, 26, 1).is_in_bounds());
    assert!(piece(I_BLOCKS, 10, 0, 1).is_in_bounds());
    assert!(!piece(I_BLOCKS, 11, 0, 1).is_in_bounds());
    assert!(!piece(I_BLOCKS, 5, 27, 1).is_in_bounds());
    assert!(!piece(I_BLOCKS, i32::MAX, i32::MIN, 1).is_in_bounds());
}
