//! The falling piece: where it is, how it is turned, and what it may do
//! against the cells of the playfield.

use crate::grid::{blocked, in_grid, Grid, GRID_COLS, GRID_ROWS};
use crate::shapes::{
    block_at, blocks_valid, has_block, is_table_shape, lemma_table_shapes_valid, table_shape,
    Blocks, I_BLOCKS, L1_BLOCKS, L2_BLOCKS, ROTATIONS, SHAPE_KINDS, TETROMINO_HEIGHT,
    TETROMINO_WIDTH, T_BLOCKS, Z1_BLOCKS, Z2_BLOCKS,
};
use rand::RngCore;
use vstd::prelude::*;
use vstd::std_specs::cmp::{PartialOrdIs, PartialOrdSpec};

verus! {

/// A position on the playfield, in cells.
#[derive(Clone, Copy, Debug, PartialEq, Eq)]
pub struct Point {
    pub x: i32,
    pub y: i32,
}

/// The active piece. `pos` is the top-left corner of its 4 x 4 box and
/// `rotation` selects one of the four states of `blocks`.
#[derive(Clone, Copy, Debug, PartialEq, Eq)]
pub struct Tetromino {
    pub pos: Point,
    pub blocks: Blocks,
    pub rotation: usize,
}

/// The column of the box of a piece that has just spawned.
pub open spec fn spawn_column() -> int {
    GRID_COLS as int / 2 - 1
}

/// `value` kept within `min..=max` by wrapping one step: below `min` it
/// becomes `max`, above `max` it becomes `min`.
pub open spec fn wrapped(value: int, min: int, max: int) -> int {
    if value < min {
        max
    } else if value > max {
        min
    } else {
        value
    }
}

/// Wraps `value` into `min..=max`: a value below `min` gives `max`, one above
/// `max` gives `min`, any other is returned as it is.
pub fn rotate_value<T: PartialOrd>(value: T, min: T, max: T) -> (rotated: T)
    ensures
        T::obeys_partial_cmp_spec() ==> rotated == (if value.is_lt(&min) {
            max
        } else if value.is_gt(&max) {
            min
        } else {
            value
        }),
        rotated == value || rotated == min || rotated == max,
{
    if value < min {
        return max;
    } else if value > max {
        return min;
    }
    value
}

impl View for Tetromino {
    type V = Set<(int, int)>;

    /// The cells of the playfield that the piece covers.
    open spec fn view(&self) -> Set<(int, int)> {
        Set::new(
            |c: (int, int)|
                block_at(self.blocks, self.rotation as int, c.0 - self.pos.x, c.1 - self.pos.y),
        )
    }
}

impl Tetromino {
    /// A piece is well formed when its rotation index is in range and each of
    /// its rotation states occupies a cell.
    pub open spec fn wf(&self) -> bool {
        self.rotation < ROTATIONS && blocks_valid(self.blocks)
    }

    /// Whether the piece, turned to `rotation` and shifted by `(dx, dy)`, has
    /// every one of its cells on a position that `cells` does not block.
    pub open spec fn fits(&self, cells: Set<(int, int)>, rotation: int, dx: int, dy: int) -> bool {
        forall|cx: int, cy: int| #[trigger]
            block_at(self.blocks, rotation, cx, cy) ==> !blocked(
                cells,
                self.pos.x + cx + dx,
                self.pos.y + cy + dy,
            )
    }

    /// Whether every cell of the piece lies on the playfield.
    pub open spec fn in_bounds(&self) -> bool {
        forall|cx: int, cy: int| #[trigger]
            block_at(self.blocks, self.rotation as int, cx, cy) ==> in_grid(
                self.pos.x + cx,
                self.pos.y + cy,
            )
    }

    /// Whether the piece is as it spawns: a shape of the table in its first
    /// rotation state, in the top row, centred.
    pub open spec fn is_spawned(&self) -> bool {
        &&& self.rotation == 0
        &&& self.pos.x == spawn_column()
        &&& self.pos.y == 0
        &&& is_table_shape(self.blocks)
    }

    /// The rotation index that a turn by `dir` asks for.
    pub open spec fn turned(&self, dir: int) -> int {
        wrapped(self.rotation + dir, 0, ROTATIONS - 1)
    }

    /// A spawned piece is well formed and lies on the playfield.
    pub proof fn lemma_spawned_wf(&self)
        requires
            self.is_spawned(),
        ensures
            self.wf(),
            self.in_bounds(),
    {
        lemma_table_shapes_valid(self.blocks);
    }

    /// A well-formed piece that fits somewhere has its box near the
    /// playfield: one of its cells is on a column of the grid and above the
    /// floor.
    pub proof fn lemma_fits_bounds(&self, cells: Set<(int, int)>, rotation: int, dx: int, dy: int)
        requires
            blocks_valid(self.blocks),
            0 <= rotation < ROTATIONS,
            self.fits(cells, rotation, dx, dy),
        ensures
            -(TETROMINO_WIDTH as int) < self.pos.x + dx < GRID_COLS,
            self.pos.y + dy < GRID_ROWS,
    {
        assert(has_block(self.blocks, rotation));
        let (cx, cy) = choose|cx: int, cy: int| block_at(self.blocks, rotation, cx, cy);
        assert(!blocked(cells, self.pos.x + cx + dx, self.pos.y + cy + dy));
    }

    /// A turn by one step goes round the four rotation states: forwards
    /// from the last state to the first, backwards from the first to the
    /// last.
    pub proof fn lemma_turn_wraps(&self)
        requires
            self.rotation < ROTATIONS,
        ensures
            self.turned(1) == (self.rotation + 1) % 4,
            self.turned(-1) == (self.rotation - 1) % 4,
            0 <= self.turned(1) < ROTATIONS,
            0 <= self.turned(-1) < ROTATIONS,
    {
    }

    #[allow(non_snake_case)]
    pub fn create_L1() -> (blocks: Blocks)
        ensures
            blocks == L1_BLOCKS,
    {
        L1_BLOCKS
    }

    #[allow(non_snake_case)]
    pub fn create_L2() -> (blocks: Blocks)
        ensures
            blocks == L2_BLOCKS,
    {
        L2_BLOCKS
    }

    #[allow(non_snake_case)]
    pub fn create_T() -> (blocks: Blocks)
        ensures
            blocks == T_BLOCKS,
    {
        T_BLOCKS
    }

    #[allow(non_snake_case)]
    pub fn create_Z1() -> (blocks: Blocks)
        ensures
            blocks == Z1_BLOCKS,
    {
        Z1_BLOCKS
    }

    #[allow(non_snake_case)]
    pub fn create_Z2() -> (blocks: Blocks)
        ensures
            blocks == Z2_BLOCKS,
    {
        Z2_BLOCKS
    }

    #[allow(non_snake_case)]
    pub fn create_I() -> (blocks: Blocks)
        ensures
            blocks == I_BLOCKS,
    {
        I_BLOCKS
    }

    /// The shape that a 32-bit draw selects: the draw is reduced modulo the
    /// size of the table, so every draw selects one of its entries.
    pub fn blocks_for_draw(draw: u32) -> (blocks: Blocks)
        ensures
            blocks == table_shape(draw as int % SHAPE_KINDS as int),
            is_table_shape(blocks),
    {
        let kind = draw % SHAPE_KINDS;
        assert(table_shape(kind as int) == table_shape(kind as int));
        if kind == 0 {
            Self::create_L1()
        } else if kind == 1 {
            Self::create_L2()
        } else if kind == 2 {
            Self::create_T()
        } else if kind == 3 {
            Self::create_Z1()
        } else if kind == 4 {
            Self::create_Z2()
        } else {
            Self::create_I()
        }
    }

    /// A shape of the table, chosen by a fresh random draw.
    pub fn randomized_blocks() -> (blocks: Blocks)
        ensures
            is_table_shape(blocks),
    {
        Self::blocks_for_draw(next_draw())
    }

    /// A freshly spawned piece of a random shape.
    pub fn new() -> (piece: Tetromino)
        ensures
            piece.is_spawned(),
            piece.wf(),
            piece.in_bounds(),
    {
        let piece = Tetromino {
            pos: Point { x: (GRID_COLS / 2 - 1) as i32, y: 0 },
            blocks: Self::randomized_blocks(),
            rotation: 0,
        };
        proof {
            piece.lemma_spawned_wf();
        }
        piece
    }

    /// Turns the piece into a freshly spawned one of a random shape.
    pub fn reset(&mut self)
        ensures
            final(self).is_spawned(),
            final(self).wf(),
            final(self).in_bounds(),
    {
        self.blocks = Self::randomized_blocks();
        self.rotation = 0;
        self.pos.y = 0;
        self.pos.x = (GRID_COLS / 2 - 1) as i32;
        proof {
            self.lemma_spawned_wf();
        }
    }

    /// The rotation state the piece is in, as a 4 x 4 matrix of 0 and 1
    /// indexed `[row][column]`, for a reader that draws the piece.
    pub fn shape(&self) -> (state: [[i32; TETROMINO_WIDTH]; TETROMINO_HEIGHT])
        requires
            self.rotation < ROTATIONS,
        ensures
            state == self.blocks[self.rotation as int],
    {
        self.blocks[self.rotation]
    }

    /// Whether the shape of the piece is `other`.
    fn has_blocks(&self, other: &Blocks) -> (same: bool)
        ensures
            same == (self.blocks == *other),
    {
        let mut r: usize = 0;
        while r < ROTATIONS
            invariant
                r <= ROTATIONS,
                forall|i: int| 0 <= i < r ==> self.blocks[i] == #[trigger] other[i],
            decreases ROTATIONS - r,
        {
            let mut y: usize = 0;
            while y < TETROMINO_HEIGHT
                invariant
                    r < ROTATIONS,
                    y <= TETROMINO_HEIGHT,
                    forall|j: int| 0 <= j < y ==> self.blocks[r as int][j] == #[trigger] other[r as int][j],
                decreases TETROMINO_HEIGHT - y,
            {
                let mut x: usize = 0;
                while x < TETROMINO_WIDTH
                    invariant
                        r < ROTATIONS,
                        y < TETROMINO_HEIGHT,
                        x <= TETROMINO_WIDTH,
                        forall|k: int|
                            0 <= k < x ==> self.blocks[r as int][y as int][k]
                                == #[trigger] other[r as int][y as int][k],
                    decreases TETROMINO_WIDTH - x,
                {
                    if self.blocks[r][y][x] != other[r][y][x] {
                        return false;
                    }
                    x += 1;
                }
                assert(self.blocks[r as int][y as int] =~= other[r as int][y as int]);
                y += 1;
            }
            assert(self.blocks[r as int] =~= other[r as int]);
            r += 1;
        }
        assert(self.blocks =~= *other);
        true
    }

    /// Whether the shape of the piece is one of the six shapes of the table.
    pub fn has_table_shape(&self) -> (listed: bool)
        ensures
            listed == is_table_shape(self.blocks),
    {
        let listed = self.has_blocks(&L1_BLOCKS) || self.has_blocks(&L2_BLOCKS) || self.has_blocks(
            &T_BLOCKS,
        ) || self.has_blocks(&Z1_BLOCKS) || self.has_blocks(&Z2_BLOCKS) || self.has_blocks(
            &I_BLOCKS,
        );
        proof {
            if listed {
                let kind: int = if self.blocks == L1_BLOCKS {
                    0
                } else if self.blocks == L2_BLOCKS {
                    1
                } else if self.blocks == T_BLOCKS {
                    2
                } else if self.blocks == Z1_BLOCKS {
                    3
                } else if self.blocks == Z2_BLOCKS {
                    4
                } else {
                    5
                };
                assert(self.blocks == table_shape(kind));
            }
        }
        listed
    }

    /// Whether every cell of the piece lies on the playfield.
    pub fn is_in_bounds(&self) -> (inside: bool)
        requires
            self.rotation < ROTATIONS,
        ensures
            inside == self.in_bounds(),
    {
        let mut x: usize = 0;
        while x < TETROMINO_WIDTH
            invariant
                self.rotation < ROTATIONS,
                x <= TETROMINO_WIDTH,
                forall|cx: int, cy: int|
                    cx < x && #[trigger] block_at(self.blocks, self.rotation as int, cx, cy)
                        ==> in_grid(self.pos.x + cx, self.pos.y + cy),
            decreases TETROMINO_WIDTH - x,
        {
            let mut y: usize = 0;
            while y < TETROMINO_HEIGHT
                invariant
                    self.rotation < ROTATIONS,
                    x < TETROMINO_WIDTH,
                    y <= TETROMINO_HEIGHT,
                    forall|cx: int, cy: int|
                        (cx < x || (cx == x && cy < y)) && #[trigger] block_at(
                            self.blocks,
                            self.rotation as int,
                            cx,
                            cy,
                        ) ==> in_grid(self.pos.x + cx, self.pos.y + cy),
                decreases TETROMINO_HEIGHT - y,
            {
                if self.blocks[self.rotation][y][x] == 1 {
                    let gx: i64 = self.pos.x as i64 + x as i64;
                    let gy: i64 = self.pos.y as i64 + y as i64;
                    if gx < 0 || gx >= GRID_COLS as i64 || gy < 0 || gy >= GRID_ROWS as i64 {
                        assert(block_at(self.blocks, self.rotation as int, x as int, y as int));
                        return false;
                    }
                }
                y += 1;
            }
            x += 1;
        }
        true
    }

    /// The collision test shared by every move: whether the piece, turned to
    /// `rotation` and shifted by `(dx, dy)`, is clear of the walls, the floor
    /// and the occupied cells.
    fn fits_at(&self, grid: &Grid, rotation: usize, dx: i8, dy: i8) -> (fits: bool)
        requires
            rotation < ROTATIONS,
        ensures
            fits == self.fits(grid@, rotation as int, dx as int, dy as int),
    {
        let mut x: usize = 0;
        while x < TETROMINO_WIDTH
            invariant
                rotation < ROTATIONS,
                x <= TETROMINO_WIDTH,
                forall|cx: int, cy: int|
                    cx < x && #[trigger] block_at(self.blocks, rotation as int, cx, cy) ==> !blocked(
                        grid@,
                        self.pos.x + cx + dx,
                        self.pos.y + cy + dy,
                    ),
            decreases TETROMINO_WIDTH - x,
        {
            let mut y: usize = 0;
            while y < TETROMINO_HEIGHT
                invariant
                    rotation < ROTATIONS,
                    x < TETROMINO_WIDTH,
                    y <= TETROMINO_HEIGHT,
                    forall|cx: int, cy: int|
                        (cx < x || (cx == x && cy < y)) && #[trigger] block_at(
                            self.blocks,
                            rotation as int,
                            cx,
                            cy,
                        ) ==> !blocked(grid@, self.pos.x + cx + dx, self.pos.y + cy + dy),
                decreases TETROMINO_HEIGHT - y,
            {
                if self.blocks[rotation][y][x] == 1 {
                    let gx: i64 = self.pos.x as i64 + x as i64 + dx as i64;
                    let gy: i64 = self.pos.y as i64 + y as i64 + dy as i64;
                    if grid.is_blocked(gx, gy) {
                        assert(block_at(self.blocks, rotation as int, x as int, y as int));
                        return false;
                    }
                }
                y += 1;
            }
            x += 1;
        }
        true
    }

    /// Whether the piece can go one row down: every one of its cells then
    /// stays above the floor and off the occupied cells.
    pub fn can_fall(&self, grid: &Grid) -> (free: bool)
        requires
            self.rotation < ROTATIONS,
        ensures
            free == self.fits(grid@, self.rotation as int, 0, 1),
    {
        self.fits_at(grid, self.rotation, 0, 1)
    }

    /// Whether the piece can go `dir` columns sideways (-1 is left, 1 is
    /// right): every one of its cells then stays between the walls and off
    /// the occupied cells.
    pub fn can_move(&self, grid: &Grid, dir: i8) -> (free: bool)
        requires
            self.rotation < ROTATIONS,
        ensures
            free == self.fits(grid@, self.rotation as int, dir as int, 0),
    {
        self.fits_at(grid, self.rotation, dir, 0)
    }

    /// Whether the piece can stand where it is in rotation state `rotation`:
    /// every cell of that state is on the playfield and not occupied.
    pub fn can_rotate(&self, grid: &Grid, rotation: usize) -> (free: bool)
        requires
            rotation < ROTATIONS,
        ensures
            free == self.fits(grid@, rotation as int, 0, 0),
    {
        self.fits_at(grid, rotation, 0, 0)
    }

    /// The cells of the piece that a column-by-column walk of its box has
    /// passed when it stands at column `x`, row `y` of the box.
    spec fn cells_before(&self, x: int, y: int) -> Set<(int, int)> {
        Set::new(
            |c: (int, int)|
                self@.contains(c) && (c.0 - self.pos.x < x || (c.0 - self.pos.x == x && c.1
                    - self.pos.y < y)),
        )
    }

    /// Stamps the cells of the piece into the grid.
    pub fn place_to_grid(&self, grid: &mut Grid)
        requires
            self.rotation < ROTATIONS,
            self.in_bounds(),
        ensures
            final(grid)@ == old(grid)@.union(self@),
    {
        let mut x: usize = 0;
        while x < TETROMINO_WIDTH
            invariant
                self.rotation < ROTATIONS,
                self.in_bounds(),
                x <= TETROMINO_WIDTH,
                grid@ == old(grid)@.union(self.cells_before(x as int, 0)),
            decreases TETROMINO_WIDTH - x,
        {
            let mut y: usize = 0;
            while y < TETROMINO_HEIGHT
                invariant
                    self.rotation < ROTATIONS,
                    self.in_bounds(),
                    x < TETROMINO_WIDTH,
                    y <= TETROMINO_HEIGHT,
                    grid@ == old(grid)@.union(self.cells_before(x as int, y as int)),
                decreases TETROMINO_HEIGHT - y,
            {
                if self.blocks[self.rotation][y][x] == 1 {
                    assert(block_at(self.blocks, self.rotation as int, x as int, y as int));
                    let gx = (self.pos.x as i64 + x as i64) as usize;
                    let gy = (self.pos.y as i64 + y as i64) as usize;
                    grid.set(gx, gy);
                }
                y += 1;
            }
            assert(self.cells_before(x as int, TETROMINO_HEIGHT as int) =~= self.cells_before(
                x + 1,
                0,
            ));
            x += 1;
        }
        assert(self.cells_before(TETROMINO_WIDTH as int, 0) =~= self@);
    }

    /// One step of gravity. A piece that can fall goes one row down and the
    /// grid is left alone. A piece that cannot is locked: its cells are
    /// stamped into the grid and it is replaced by a freshly spawned piece of
    /// a random shape. Returns whether the piece was locked. Only a piece
    /// that is to be locked has to lie on the playfield.
    pub fn fall(&mut self, grid: &mut Grid) -> (locked: bool)
        requires
            old(self).wf(),
            !old(self).fits(old(grid)@, old(self).rotation as int, 0, 1) ==> old(self).in_bounds(),
        ensures
            locked == !old(self).fits(old(grid)@, old(self).rotation as int, 0, 1),
            !locked ==> {
                &&& *final(grid) == *old(grid)
                &&& final(self).pos.x == old(self).pos.x
                &&& final(self).pos.y == old(self).pos.y + 1
                &&& final(self).rotation == old(self).rotation
                &&& final(self).blocks == old(self).blocks
            },
            locked ==> {
                &&& final(grid)@ == old(grid)@.union(old(self)@)
                &&& old(self)@.subset_of(final(grid)@)
                &&& final(self).is_spawned()
            },
            final(self).wf(),
            locked || old(self).in_bounds() ==> final(self).in_bounds(),
    {
        if self.can_fall(grid) {
            proof {
                self.lemma_fits_bounds(grid@, self.rotation as int, 0, 1);
            }
            self.pos.y += 1;
            false
        } else {
            self.place_to_grid(grid);
            self.reset();
            true
        }
    }

    /// Moves the piece `dir` columns sideways if it can go there, and
    /// returns whether it moved.
    pub fn move_tetromino(&mut self, grid: &mut Grid, dir: i8) -> (moved: bool)
        requires
            old(self).wf(),
        ensures
            moved == old(self).fits(old(grid)@, old(self).rotation as int, dir as int, 0),
            *final(grid) == *old(grid),
            final(self).pos.x == if moved {
                old(self).pos.x + dir
            } else {
                old(self).pos.x as int
            },
            final(self).pos.y == old(self).pos.y,
            final(self).rotation == old(self).rotation,
            final(self).blocks == old(self).blocks,
            final(self).wf(),
    {
        if self.can_move(grid, dir) {
            proof {
                self.lemma_fits_bounds(grid@, self.rotation as int, dir as int, 0);
            }
            self.pos.x += dir as i32;
            true
        } else {
            false
        }
    }

    /// Turns the piece by `dir` (-1 or 1) if its next rotation state has room
    /// where the piece stands. The index wraps: below 0 it becomes 3, above 3
    /// it becomes 0. There is no search for another position: a turn that
    /// collides is not made.
    pub fn rotate(&mut self, grid: &Grid, dir: i8)
        requires
            old(self).wf(),
        ensures
            final(self).pos == old(self).pos,
            final(self).blocks == old(self).blocks,
            final(self).rotation == if old(self).fits(grid@, old(self).turned(dir as int), 0, 0) {
                old(self).turned(dir as int)
            } else {
                old(self).rotation as int
            },
            final(self).wf(),
    {
        let next_rotation = rotate_value(self.rotation as i16 + dir as i16, 0, 3);
        if self.can_rotate(grid, next_rotation as usize) {
            self.rotation = next_rotation as usize;
        }
    }
}

/// Draws 32 bits from `rand`'s thread-local generator, by
/// `rand::thread_rng().next_u32()`. The generator is seeded by the operating
/// system, so nothing is claimed of the value: callers hold for every `u32`.
/// The call panics if the operating system cannot seed the generator.
#[verifier::external_body]
fn next_draw() -> (draw: u32) {
    rand::thread_rng().next_u32()
}

} // verus!
