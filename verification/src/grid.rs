//! The playfield: a fixed `GRID_COLS` x `GRID_ROWS` store of occupied cells.
//!
//! A grid is modelled by the set of its occupied cells, each a pair
//! `(column, row)`. Column 0 is the left edge and row 0 the top; rows grow
//! downwards, so the bottom row is `GRID_ROWS - 1`.

use vstd::prelude::*;

verus! {

/// Number of columns of the playfield.
pub const GRID_COLS: usize = 12;

/// Number of rows of the playfield.
pub const GRID_ROWS: usize = 30;

/// The most rows a single scan hands out for clearing: a piece is four
/// cells tall, so one lock can complete at most four rows.
pub const MAX_FULL_ROWS: usize = 4;

/// Cell occupancy of the playfield, indexed `cells[column][row]`.
#[derive(Clone, Copy, Debug, PartialEq, Eq)]
pub struct Grid {
    pub cells: [[bool; GRID_ROWS]; GRID_COLS],
}

/// The outcome of a scan for full rows.
#[derive(Clone, Debug, PartialEq, Eq)]
pub struct FullRows {
    /// The topmost full rows, in ascending order, at most `MAX_FULL_ROWS`.
    pub rows: Vec<usize>,
    /// Whether the grid holds more full rows than `rows` lists.
    pub overflow: bool,
}

/// Whether `(x, y)` names a cell of the playfield.
pub open spec fn in_grid(x: int, y: int) -> bool {
    0 <= x < GRID_COLS && 0 <= y < GRID_ROWS
}

/// Whether a piece cell may not be at `(x, y)`: the position is past the left,
/// right or bottom edge, or it is an occupied cell. Positions above the top
/// edge, between the side walls, are free.
pub open spec fn blocked(cells: Set<(int, int)>, x: int, y: int) -> bool {
    x < 0 || x >= GRID_COLS || y >= GRID_ROWS || cells.contains((x, y))
}

/// Whether every cell of `row` is occupied.
pub open spec fn row_full(cells: Set<(int, int)>, row: int) -> bool {
    forall|x: int| 0 <= x < GRID_COLS ==> #[trigger] cells.contains((x, row))
}

/// The full rows among the topmost `n` rows, in ascending order.
pub open spec fn full_rows(cells: Set<(int, int)>, n: int) -> Seq<int>
    decreases n,
{
    if n <= 0 {
        Seq::empty()
    } else if row_full(cells, n - 1) {
        full_rows(cells, n - 1).push(n - 1)
    } else {
        full_rows(cells, n - 1)
    }
}

/// The cells left when `row` is emptied.
pub open spec fn row_cleared(cells: Set<(int, int)>, row: int) -> Set<(int, int)> {
    Set::new(|c: (int, int)| cells.contains(c) && c.1 != row)
}

/// The cells after every row from 1 to `row` has taken the contents of the
/// row above it. Row 0 and the rows below `row` keep theirs.
pub open spec fn rows_lowered(cells: Set<(int, int)>, row: int) -> Set<(int, int)> {
    Set::new(
        |c: (int, int)|
            if 1 <= c.1 <= row {
                cells.contains((c.0, c.1 - 1))
            } else {
                cells.contains(c)
            },
    )
}

/// The cells after `row` is emptied and the rows above it are lowered onto it.
pub open spec fn row_collapsed(cells: Set<(int, int)>, row: int) -> Set<(int, int)> {
    rows_lowered(row_cleared(cells, row), row)
}

/// The list of full rows is what a scan from the top finds: it names rows
/// among the topmost `n`, each of them full, in ascending order, and it
/// leaves no full row out.
pub proof fn lemma_full_rows(cells: Set<(int, int)>, n: int)
    ensures
        full_rows(cells, n).len() <= if n < 0 { 0 } else { n },
        forall|i: int|
            0 <= i < full_rows(cells, n).len() ==> 0 <= #[trigger] full_rows(cells, n)[i] < n
                && row_full(cells, full_rows(cells, n)[i]),
        forall|i: int, j: int|
            0 <= i < j < full_rows(cells, n).len() ==> #[trigger] full_rows(cells, n)[i]
                < #[trigger] full_rows(cells, n)[j],
        forall|row: int|
            0 <= row < n && row_full(cells, row) ==> #[trigger] full_rows(cells, n).contains(row),
    decreases n,
{
    if n > 0 {
        lemma_full_rows(cells, n - 1);
        let above = full_rows(cells, n - 1);
        let all = full_rows(cells, n);
        assert forall|row: int| 0 <= row < n && row_full(cells, row) implies #[trigger] all.contains(
            row,
        ) by {
            if row < n - 1 {
                assert(above.contains(row));
                let i = choose|i: int| 0 <= i < above.len() && above[i] == row;
                assert(all[i] == row);
            } else {
                assert(all[all.len() - 1] == row);
            }
        }
    }
}

/// A cleared row holds no occupied cell, and the other rows are as they
/// were.
pub proof fn lemma_row_cleared(cells: Set<(int, int)>, row: int)
    ensures
        forall|x: int| !#[trigger] row_cleared(cells, row).contains((x, row)),
        forall|x: int, y: int|
            y != row ==> #[trigger] row_cleared(cells, row).contains((x, y)) == cells.contains(
                (x, y),
            ),
{
}

/// Clearing a row a second time changes nothing.
pub proof fn lemma_row_cleared_idempotent(cells: Set<(int, int)>, row: int)
    ensures
        row_cleared(row_cleared(cells, row), row) == row_cleared(cells, row),
{
    assert(row_cleared(row_cleared(cells, row), row) =~= row_cleared(cells, row));
}

/// Clearing a row that holds no occupied cell changes nothing.
pub proof fn lemma_row_cleared_empty(cells: Set<(int, int)>, row: int)
    requires
        forall|x: int| !cells.contains((x, row)),
    ensures
        row_cleared(cells, row) == cells,
{
    assert forall|c: (int, int)| row_cleared(cells, row).contains(c) == cells.contains(c) by {
        if c.1 == row {
            assert(!cells.contains((c.0, row)));
        }
    }
    assert(row_cleared(cells, row) =~= cells);
}

/// After a row is collapsed, that row and every row above it but the top one
/// hold what the row above held; the top row and the rows below are as they
/// were.
pub proof fn lemma_row_collapsed(cells: Set<(int, int)>, row: int)
    requires
        0 <= row,
    ensures
        forall|x: int, y: int|
            1 <= y <= row ==> #[trigger] row_collapsed(cells, row).contains((x, y))
                == cells.contains((x, y - 1)),
        forall|x: int, y: int|
            y > row ==> #[trigger] row_collapsed(cells, row).contains((x, y)) == cells.contains(
                (x, y),
            ),
        forall|x: int|
            #[trigger] row_collapsed(cells, row).contains((x, 0)) == (row != 0 && cells.contains(
                (x, 0),
            )),
{
}

impl View for Grid {
    type V = Set<(int, int)>;

    /// The set of occupied cells.
    open spec fn view(&self) -> Set<(int, int)> {
        Set::new(|c: (int, int)| in_grid(c.0, c.1) && self.cells[c.0][c.1])
    }
}

impl Grid {
    /// An empty playfield.
    pub fn new() -> (grid: Grid)
        ensures
            grid@ == Set::<(int, int)>::empty(),
    {
        let grid = Grid { cells: [[false; GRID_ROWS]; GRID_COLS] };
        assert(grid@ =~= Set::<(int, int)>::empty());
        grid
    }

    /// Whether the cell at `(x, y)` is occupied. A position outside the
    /// playfield holds no cell and is reported as not occupied.
    pub fn is_occupied(&self, x: usize, y: usize) -> (occupied: bool)
        ensures
            occupied == self@.contains((x as int, y as int)),
    {
        if x < GRID_COLS && y < GRID_ROWS {
            self.cells[x][y]
        } else {
            false
        }
    }

    /// Whether a piece cell may not be at `(x, y)`. This is the bounds-checked
    /// query behind every collision test: the side walls and the floor block,
    /// the space above the top edge does not.
    pub fn is_blocked(&self, x: i64, y: i64) -> (is_blocked: bool)
        ensures
            is_blocked == blocked(self@, x as int, y as int),
    {
        if x < 0 || x >= GRID_COLS as i64 || y >= GRID_ROWS as i64 {
            true
        } else if y < 0 {
            false
        } else {
            self.cells[x as usize][y as usize]
        }
    }

    /// The occupancy of every cell as 0 or 1, indexed `[column][row]`, for a
    /// reader that draws the playfield.
    pub fn snapshot(&self) -> (cells: [[i32; GRID_ROWS]; GRID_COLS])
        ensures
            forall|x: int, y: int|
                in_grid(x, y) ==> #[trigger] cells[x][y] == if self@.contains((x, y)) {
                    1i32
                } else {
                    0i32
                },
    {
        let mut cells = [[0i32; GRID_ROWS]; GRID_COLS];
        let mut x: usize = 0;
        while x < GRID_COLS
            invariant
                x <= GRID_COLS,
                forall|i: int, j: int|
                    in_grid(i, j) ==> #[trigger] cells[i][j] == if i < x && self.cells[i][j] {
                        1i32
                    } else {
                        0i32
                    },
            decreases GRID_COLS - x,
        {
            let mut y: usize = 0;
            while y < GRID_ROWS
                invariant
                    x < GRID_COLS,
                    y <= GRID_ROWS,
                    forall|i: int, j: int|
                        in_grid(i, j) ==> #[trigger] cells[i][j] == if (i < x || (i == x && j
                            < y)) && self.cells[i][j] {
                            1i32
                        } else {
                            0i32
                        },
                decreases GRID_ROWS - y,
            {
                if self.cells[x][y] {
                    cells[x][y] = 1;
                }
                y += 1;
            }
            x += 1;
        }
        cells
    }

    /// Marks the cell at `(x, y)` occupied.
    pub fn set(&mut self, x: usize, y: usize)
        requires
            x < GRID_COLS,
            y < GRID_ROWS,
        ensures
            final(self)@ == old(self)@.insert((x as int, y as int)),
    {
        self.cells[x][y] = true;
        assert(self@ =~= old(self)@.insert((x as int, y as int)));
    }

    /// Whether every cell of `row` is occupied.
    pub fn is_row_full(&self, row: usize) -> (full: bool)
        requires
            row < GRID_ROWS,
        ensures
            full == row_full(self@, row as int),
    {
        let mut x: usize = 0;
        while x < GRID_COLS
            invariant
                row < GRID_ROWS,
                x <= GRID_COLS,
                forall|i: int| 0 <= i < x ==> #[trigger] self@.contains((i, row as int)),
            decreases GRID_COLS - x,
        {
            if !self.cells[x][row] {
                assert(!self@.contains((x as int, row as int)));
                return false;
            }
            x += 1;
        }
        true
    }

    /// Scans the rows from top to bottom and collects the full ones, up to
    /// `MAX_FULL_ROWS` of them. Finding more is reported in `overflow`; the
    /// rows beyond the limit are left for a later scan.
    pub fn check_rows(&self) -> (found: FullRows)
        ensures
            found.rows@.len() == if full_rows(self@, GRID_ROWS as int).len() <= MAX_FULL_ROWS {
                full_rows(self@, GRID_ROWS as int).len()
            } else {
                MAX_FULL_ROWS as nat
            },
            forall|i: int|
                0 <= i < found.rows@.len() ==> #[trigger] found.rows@[i] as int == full_rows(
                    self@,
                    GRID_ROWS as int,
                )[i],
            found.overflow == (full_rows(self@, GRID_ROWS as int).len() > MAX_FULL_ROWS),
            forall|i: int| 0 <= i < found.rows@.len() ==> #[trigger] found.rows@[i] < GRID_ROWS,
    {
        let mut rows: Vec<usize> = Vec::new();
        let mut overflow = false;
        let mut y: usize = 0;
        while y < GRID_ROWS
            invariant
                y <= GRID_ROWS,
                rows@.len() == if full_rows(self@, y as int).len() <= MAX_FULL_ROWS {
                    full_rows(self@, y as int).len()
                } else {
                    MAX_FULL_ROWS as nat
                },
                forall|i: int|
                    0 <= i < rows@.len() ==> #[trigger] rows@[i] as int == full_rows(
                        self@,
                        y as int,
                    )[i],
                overflow == (full_rows(self@, y as int).len() > MAX_FULL_ROWS),
                forall|i: int| 0 <= i < rows@.len() ==> #[trigger] rows@[i] < GRID_ROWS,
            decreases GRID_ROWS - y,
        {
            if self.is_row_full(y) {
                if rows.len() >= MAX_FULL_ROWS {
                    overflow = true;
                } else {
                    rows.push(y);
                }
            }
            y += 1;
        }
        FullRows { rows, overflow }
    }

    /// Empties every cell of `row`.
    pub fn clear_row(&mut self, row: usize)
        requires
            row < GRID_ROWS,
        ensures
            final(self)@ == row_cleared(old(self)@, row as int),
    {
        let mut x: usize = 0;
        while x < GRID_COLS
            invariant
                row < GRID_ROWS,
                x <= GRID_COLS,
                forall|i: int, j: int|
                    in_grid(i, j) ==> #[trigger] self.cells[i][j] == (old(self).cells[i][j] && !(i
                        < x && j == row)),
            decreases GRID_COLS - x,
        {
            self.cells[x][row] = false;
            x += 1;
        }
        assert(self@ =~= row_cleared(old(self)@, row as int));
    }

    /// Shifts the rows above `row` one step towards the bottom: every row from
    /// `row` up to row 1 takes the contents of the row above it. Row 0 keeps
    /// its contents, and so do the rows below `row`.
    pub fn lower_above(&mut self, row: usize)
        requires
            row < GRID_ROWS,
        ensures
            final(self)@ == rows_lowered(old(self)@, row as int),
    {
        let mut y: usize = row;
        while y >= 1
            invariant
                row < GRID_ROWS,
                y <= row,
                forall|i: int, j: int|
                    in_grid(i, j) ==> #[trigger] self.cells[i][j] == (if y < j <= row {
                        old(self).cells[i][j - 1]
                    } else {
                        old(self).cells[i][j]
                    }),
            decreases y,
        {
            let mut x: usize = 0;
            while x < GRID_COLS
                invariant
                    row < GRID_ROWS,
                    1 <= y <= row,
                    x <= GRID_COLS,
                    forall|i: int, j: int|
                        in_grid(i, j) ==> #[trigger] self.cells[i][j] == (if y < j <= row || (j
                            == y && i < x) {
                            old(self).cells[i][j - 1]
                        } else {
                            old(self).cells[i][j]
                        }),
                decreases GRID_COLS - x,
            {
                let above = self.cells[x][y - 1];
                self.cells[x][y] = above;
                x += 1;
            }
            y -= 1;
        }
        assert(self@ =~= rows_lowered(old(self)@, row as int));
    }
}

} // verus!
