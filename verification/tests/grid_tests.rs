use tetris::grid::{FullRows, Grid, GRID_COLS, GRID_ROWS, MAX_FULL_ROWS};

fn fill_row(grid: &mut Grid, row: usize) {
    for x in 0..GRID_COLS {
        grid.set(x, row);
    }
}

fn row_is_empty(grid: &Grid, row: usize) -> bool {
    (0..GRID_COLS).all(|x| !grid.is_occupied(x, row))
}

#[test]
fn grid_has_twelve_columns_and_thirty_rows() {
    assert_eq!(GRID_COLS, 12);
    assert_eq!(GRID_ROWS, 30);
    assert_eq!(MAX_FULL_ROWS, 4);
}

#[test]
fn new_grid_is_empty() {
    let grid = Grid::new();
    for x in 0..GRID_COLS {
        for y in 0..GRID_ROWS {
            assert!(!grid.is_occupied(x, y));
        }
    }
}

#[test]
fn set_marks_one_cell() {
    let mut grid = Grid::new();
    grid.set(3, 7);
    for x in 0..GRID_COLS {
        for y in 0..GRID_ROWS {
            assert_eq!(grid.is_occupied(x, y), x == 3 && y == 7);
        }
    }
    grid.set(3, 7);
    assert!(grid.is_occupied(3, 7));
}

#[test]
fn is_occupied_is_false_outside_the_grid() {
    let mut grid = Grid::new();
    grid.set(11, 29);
    assert!(!grid.is_occupied(12, 29));
    assert!(!grid.is_occupied(11, 30));
    assert!(!grid.is_occupied(usize::MAX, usize::MAX));
}

#[test]
fn walls_and_floor_block() {
    let grid = Grid::new();
    assert!(grid.is_blocked(-1, 5));
    assert!(grid.is_blocked(12, 5));
    assert!(grid.is_blocked(5, 30));
    assert!(grid.is_blocked(-1, -1));
    assert!(grid.is_blocked(i64::MIN, 0));
    assert!(grid.is_blocked(0, i64::MAX));
}

#[test]
fn space_above_the_top_is_free() {
    let mut grid = Grid::new();
    grid.set(4, 0);
    assert!(!grid.is_blocked(4, -1));
    assert!(!grid.is_blocked(0, -100));
    assert!(!grid.is_blocked(11, i64::MIN));
    assert!(grid.is_blocked(4, 0));
}

#[test]
fn occupied_cells_block_and_free_cells_do_not() {
    let mut grid = Grid::new();
    grid.set(0, 0);
    grid.set(11, 29);
    assert!(grid.is_blocked(0, 0));
    assert!(grid.is_blocked(11, 29));
    assert!(!grid.is_blocked(1, 0));
    assert!(!grid.is_blocked(11, 28));
    assert!(!grid.is_blocked(0, 29));
}

#[test]
fn is_row_full_needs_every_column() {
    let mut grid = Grid::new();
    assert!(!grid.is_row_full(29));
    for x in 0..GRID_COLS - 1 {
        grid.set(x, 29);
    }
    assert!(!grid.is_row_full(29));
    grid.set(GRID_COLS - 1, 29);
    assert!(grid.is_row_full(29));
    assert!(!grid.is_row_full(28));
}

#[test]
fn clear_row_empties_that_row_only() {
    let mut grid = Grid::new();
    fill_row(&mut grid, 10);
    fill_row(&mut grid, 11);
    grid.set(2, 9);
    grid.clear_row(10);
    assert!(row_is_empty(&grid, 10));
    assert!(grid.is_row_full(11));
    assert!(grid.is_occupied(2, 9));
}

#[test]
fn clear_row_twice_is_clear_row_once() {
    let mut grid = Grid::new();
    fill_row(&mut grid, 5);
    grid.set(1, 4);
    grid.clear_row(5);
    let once = grid;
    grid.clear_row(5);
    assert_eq!(grid, once);
}

#[test]
fn clear_row_of_an_empty_row_changes_nothing() {
    let mut grid = Grid::new();
    grid.set(1, 4);
    grid.set(7, 6);
    let before = grid;
    grid.clear_row(5);
    assert_eq!(grid, before);
}

#[test]
fn lower_above_shifts_rows_down_by_one() {
    let mut grid = Grid::new();
    grid.set(0, 0);
    grid.set(1, 1);
    grid.set(2, 2);
    grid.set(3, 3);
    grid.set(4, 4);
    grid.lower_above(3);
    // Rows 1 to 3 hold what rows 0 to 2 held.
    assert!(grid.is_occupied(0, 1));
    assert!(grid.is_occupied(1, 2));
    assert!(grid.is_occupied(2, 3));
    assert!(!grid.is_occupied(1, 1));
    assert!(!grid.is_occupied(2, 2));
    assert!(!grid.is_occupied(3, 3));
    // Row 0 keeps its contents, and so does the row below.
    assert!(grid.is_occupied(0, 0));
    assert!(grid.is_occupied(4, 4));
    let mut count = 0;
    for x in 0..GRID_COLS {
        for y in 0..GRID_ROWS {
            if grid.is_occupied(x, y) {
                count += 1;
            }
        }
    }
    assert_eq!(count, 5);
}

#[test]
fn lower_above_row_zero_changes_nothing() {
    let mut grid = Grid::new();
    grid.set(5, 0);
    grid.set(5, 1);
    let before = grid;
    grid.lower_above(0);
    assert_eq!(grid, before);
}

#[test]
fn lower_above_the_bottom_row_moves_every_row() {
    let mut grid = Grid::new();
    grid.set(6, 28);
    grid.set(7, 29);
    grid.lower_above(29);
    assert!(grid.is_occupied(6, 29));
    assert!(!grid.is_occupied(7, 29));
    assert!(!grid.is_occupied(6, 28));
}

#[test]
fn check_rows_finds_nothing_in_an_empty_grid() {
    let grid = Grid::new();
    assert_eq!(grid.check_rows(), FullRows { rows: vec![], overflow: false });
}

#[test]
fn check_rows_skips_rows_with_a_gap() {
    let mut grid = Grid::new();
    for x in 0..GRID_COLS - 1 {
        grid.set(x, 29);
    }
    assert_eq!(grid.check_rows(), FullRows { rows: vec![], overflow: false });
}

#[test]
fn check_rows_lists_full_rows_from_the_top_down() {
    let mut grid = Grid::new();
    fill_row(&mut grid, 29);
    fill_row(&mut grid, 3);
    fill_row(&mut grid, 17);
    grid.set(0, 10);
    assert_eq!(grid.check_rows(), FullRows { rows: vec![3, 17, 29], overflow: false });
}

#[test]
fn check_rows_takes_four_rows_without_overflow() {
    let mut grid = Grid::new();
    for row in 26..30 {
        fill_row(&mut grid, row);
    }
    assert_eq!(grid.check_rows(), FullRows { rows: vec![26, 27, 28, 29], overflow: false });
}

#[test]
fn check_rows_reports_a_fifth_full_row() {
    let mut grid = Grid::new();
    for row in 25..30 {
        fill_row(&mut grid, row);
    }
    let before = grid;
    assert_eq!(grid.check_rows(), FullRows { rows: vec![25, 26, 27, 28], overflow: true });
    assert_eq!(grid, before);
}

#[test]
fn check_rows_finds_the_top_and_the_bottom_row() {
    let mut grid = Grid::new();
    fill_row(&mut grid, 0);
    fill_row(&mut grid, 29);
    assert_eq!(grid.check_rows(), FullRows { rows: vec![0, 29], overflow: false });
}

#[test]
fn snapshot_is_one_where_a_cell_is_occupied() {
    let mut grid = Grid::new();
    grid.set(0, 0);
    grid.set(11, 29);
    grid.set(4, 17);
    let cells = grid.snapshot();
    for x in 0..GRID_COLS {
        for y in 0..GRID_ROWS {
            let expected = if (x, y) == (0, 0) || (x, y) == (11, 29) || (x, y) == (4, 17) {
                1
            } else {
                0
            };
            assert_eq!(cells[x][y], expected);
        }
    }
}
