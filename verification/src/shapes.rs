//! The shapes a piece can take: six kinds, each in four rotation states.
//!
//! A rotation state is a 4 x 4 matrix of 0 and 1, indexed `[row][column]`,
//! in which 1 marks an occupied cell. The table has no square piece, and the
//! four states of a kind need not be quarter turns of one another.

use vstd::prelude::*;

verus! {

/// Columns of a rotation state.
pub const TETROMINO_WIDTH: usize = 4;

/// Rows of a rotation state.
pub const TETROMINO_HEIGHT: usize = 4;

/// Rotation states of a shape.
pub const ROTATIONS: usize = 4;

/// Kinds of shape in the table.
pub const SHAPE_KINDS: u32 = 6;

/// The four rotation states of one shape, indexed `[rotation][row][column]`.
pub type Blocks = [[[i32; TETROMINO_WIDTH]; TETROMINO_HEIGHT]; ROTATIONS];

pub const L1_BLOCKS: Blocks = [
    [
        [0, 1, 1, 1],
        [0, 1, 0, 0],
        [0, 0, 0, 0],
        [0, 0, 0, 0],
    ],
    [
        [0, 1, 1, 0],
        [0, 0, 1, 0],
        [0, 0, 1, 0],
        [0, 0, 0, 0],
    ],
    [
        [0, 0, 0, 1],
        [0, 1, 1, 1],
        [0, 0, 0, 0],
        [0, 0, 0, 0],
    ],
    [
        [0, 1, 0, 0],
        [0, 1, 0, 0],
        [0, 1, 1, 0],
        [0, 0, 0, 0],
    ],
];

pub const L2_BLOCKS: Blocks = [
    [
        [0, 1, 0, 0],
        [0, 1, 1, 1],
        [0, 0, 0, 0],
        [0, 0, 0, 0],
    ],
    [
        [0, 1, 1, 0],
        [0, 1, 0, 0],
        [0, 1, 0, 0],
        [0, 0, 0, 0],
    ],
    [
        [0, 1, 1, 1],
        [0, 0, 0, 1],
        [0, 0, 0, 0],
        [0, 0, 0, 0],
    ],
    [
        [0, 0, 1, 0],
        [0, 0, 1, 0],
        [0, 1, 1, 0],
        [0, 0, 0, 0],
    ],
];

pub const T_BLOCKS: Blocks = [
    [
        [0, 1, 0, 0],
        [1, 1, 1, 0],
        [0, 0, 0, 0],
        [0, 0, 0, 0],
    ],
    [
        [0, 1, 0, 0],
        [0, 1, 1, 0],
        [0, 1, 0, 0],
        [0, 0, 0, 0],
    ],
    [
        [1, 1, 1, 0],
        [0, 1, 0, 0],
        [0, 0, 0, 0],
        [0, 0, 0, 0],
    ],
    [
        [0, 1, 0, 0],
        [1, 1, 0, 0],
        [0, 1, 0, 0],
        [0, 0, 0, 0],
    ],
];

pub const Z1_BLOCKS: Blocks = [
    [
        [0, 0, 0, 0],
        [0, 0, 1, 1],
        [0, 1, 1, 0],
        [0, 0, 0, 0],
    ],
    [
        [0, 1, 0, 0],
        [0, 1, 1, 0],
        [0, 0, 1, 0],
        [0, 0, 0, 0],
    ],
    [
        [0, 1, 0, 0],
        [0, 1, 1, 0],
        [0, 0, 1, 0],
        [0, 0, 0, 0],
    ],
    [
        [0, 1, 0, 0],
        [0, 1, 1, 0],
        [0, 0, 1, 0],
        [0, 0, 0, 0],
    ],
];

pub const Z2_BLOCKS: Blocks = [
    [
        [0, 0, 0, 0],
        [0, 1, 1, 0],
        [0, 0, 1, 1],
        [0, 0, 0, 0],
    ],
    [
        [0, 0, 1, 0],
        [0, 1, 1, 0],
        [0, 1, 0, 0],
        [0, 0, 0, 0],
    ],
    [
        [0, 0, 0, 0],
        [0, 1, 1, 0],
        [0, 0, 1, 1],
        [0, 0, 0, 0],
    ],
    [
        [0, 0, 1, 0],
        [0, 1, 1, 0],
        [0, 1, 0, 0],
        [0, 0, 0, 0],
    ],
];

pub const I_BLOCKS: Blocks = [
    [
        [0, 0, 0, 0],
        [1, 1, 1, 1],
        [0, 0, 0, 0],
        [0, 0, 0, 0],
    ],
    [
        [0, 1, 0, 0],
        [0, 1, 0, 0],
        [0, 1, 0, 0],
        [0, 1, 0, 0],
    ],
    [
        [0, 0, 0, 0],
        [1, 1, 1, 1],
        [0, 0, 0, 0],
        [0, 0, 0, 0],
    ],
    [
        [0, 1, 0, 0],
        [0, 1, 0, 0],
        [0, 1, 0, 0],
        [0, 1, 0, 0],
    ],
];

/// Whether rotation state `rotation` of `blocks` occupies the cell in column
/// `cx` and row `cy` of its box.
pub open spec fn block_at(blocks: Blocks, rotation: int, cx: int, cy: int) -> bool {
    &&& 0 <= rotation < ROTATIONS
    &&& 0 <= cx < TETROMINO_WIDTH
    &&& 0 <= cy < TETROMINO_HEIGHT
    &&& blocks[rotation][cy][cx] == 1
}

/// Whether rotation state `rotation` of `blocks` occupies any cell.
pub open spec fn has_block(blocks: Blocks, rotation: int) -> bool {
    exists|cx: int, cy: int| block_at(blocks, rotation, cx, cy)
}

/// Whether every rotation state of `blocks` occupies at least one cell.
pub open spec fn blocks_valid(blocks: Blocks) -> bool {
    forall|rotation: int| 0 <= rotation < ROTATIONS ==> #[trigger] has_block(blocks, rotation)
}

/// The shape at index `kind` of the table; the last entry for any index past it.
pub open spec fn table_shape(kind: int) -> Blocks {
    if kind == 0 {
        L1_BLOCKS
    } else if kind == 1 {
        L2_BLOCKS
    } else if kind == 2 {
        T_BLOCKS
    } else if kind == 3 {
        Z1_BLOCKS
    } else if kind == 4 {
        Z2_BLOCKS
    } else {
        I_BLOCKS
    }
}

/// Whether `blocks` is one of the six shapes of the table.
pub open spec fn is_table_shape(blocks: Blocks) -> bool {
    exists|kind: int| 0 <= kind < SHAPE_KINDS && blocks == #[trigger] table_shape(kind)
}

/// Every shape of the table occupies a cell in each of its rotation states.
pub proof fn lemma_table_shapes_valid(blocks: Blocks)
    requires
        is_table_shape(blocks),
    ensures
        blocks_valid(blocks),
{
    let kind = choose|kind: int| 0 <= kind < SHAPE_KINDS && blocks == #[trigger] table_shape(kind);
    assert forall|rotation: int| 0 <= rotation < ROTATIONS implies #[trigger] has_block(
        blocks,
        rotation,
    ) by {
        // Column 1 of row 1 is occupied in every state but these four.
        if kind == 0 && rotation == 1 {
            assert(block_at(blocks, rotation, 1, 0));
        } else if kind == 1 && rotation == 2 {
            assert(block_at(blocks, rotation, 1, 0));
        } else if kind == 1 && rotation == 3 {
            assert(block_at(blocks, rotation, 2, 0));
        } else if kind == 3 && rotation == 0 {
            assert(block_at(blocks, rotation, 2, 1));
        } else {
            assert(block_at(blocks, rotation, 1, 1));
        }
    }
}

} // verus!
