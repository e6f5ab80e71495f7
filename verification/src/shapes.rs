//! The piece geometry table: for every piece variant, the occupancy grids of
//! its rotation states.
//!
//! Each grid is a 4x4 matrix addressed as `shape[row][col]`, row 0 on top.
//! A variant that looks the same in every orientation has a single state.

use vstd::prelude::*;

verus! {

/// Side length of the square bounding box that holds any piece.
pub const SHAPE_SIZE: usize = 4;

/// Occupancy of a piece inside its bounding box, `shape[row][col]`.
pub type Shape = [[bool; SHAPE_SIZE]; SHAPE_SIZE];

pub const I_SHAPES: [Shape; 4] = [
    [
        [false, false, false, false],
        [true, true, true, true],
        [false, false, false, false],
        [false, false, false, false],
    ],
    [
        [false, false, true, false],
        [false, false, true, false],
        [false, false, true, false],
        [false, false, true, false],
    ],
    [
        [false, false, false, false],
        [false, false, false, false],
        [true, true, true, true],
        [false, false, false, false],
    ],
    [
        [false, true, false, false],
        [false, true, false, false],
        [false, true, false, false],
        [false, true, false, false],
    ],
];

pub const O_SHAPES: [Shape; 1] = [
    [
        [false, true, true, false],
        [false, true, true, false],
        [false, false, false, false],
        [false, false, false, false],
    ],
];

pub const T_SHAPES: [Shape; 4] = [
    [
        [false, true, false, false],
        [true, true, true, false],
        [false, false, false, false],
        [false, false, false, false],
    ],
    [
        [false, true, false, false],
        [false, true, true, false],
        [false, true, false, false],
        [false, false, false, false],
    ],
    [
        [false, false, false, false],
        [true, true, true, false],
        [false, true, false, false],
        [false, false, false, false],
    ],
    [
        [false, true, false, false],
        [true, true, false, false],
        [false, true, false, false],
        [false, false, false, false],
    ],
];

pub const S_SHAPES: [Shape; 4] = [
    [
        [false, true, true, false],
        [true, true, false, false],
        [false, false, false, false],
        [false, false, false, false],
    ],
    [
        [false, true, false, false],
        [false, true, true, false],
        [false, false, true, false],
        [false, false, false, false],
    ],
    [
        [false, false, false, false],
        [false, true, true, false],
        [true, true, false, false],
        [false, false, false, false],
    ],
    [
        [true, false, false, false],
        [true, true, false, false],
        [false, true, false, false],
        [false, false, false, false],
    ],
];

pub const Z_SHAPES: [Shape; 4] = [
    [
        [true, true, false, false],
        [false, true, true, false],
        [false, false, false, false],
        [false, false, false, false],
    ],
    [
        [false, false, true, false],
        [false, true, true, false],
        [false, true, false, false],
        [false, false, false, false],
    ],
    [
        [false, false, false, false],
        [true, true, false, false],
        [false, true, true, false],
        [false, false, false, false],
    ],
    [
        [false, true, false, false],
        [true, true, false, false],
        [true, false, false, false],
        [false, false, false, false],
    ],
];

pub const J_SHAPES: [Shape; 4] = [
    [
        [true, false, false, false],
        [true, true, true, false],
        [false, false, false, false],
        [false, false, false, false],
    ],
    [
        [false, true, true, false],
        [false, true, false, false],
        [false, true, false, false],
        [false, false, false, false],
    ],
    [
        [false, false, false, false],
        [true, true, true, false],
        [false, false, true, false],
        [false, false, false, false],
    ],
    [
        [false, true, false, false],
        [false, true, false, false],
        [true, true, false, false],
        [false, false, false, false],
    ],
];

pub const L_SHAPES: [Shape; 4] = [
    [
        [false, false, true, false],
        [true, true, true, false],
        [false, false, false, false],
        [false, false, false, false],
    ],
    [
        [false, true, false, false],
        [false, true, false, false],
        [false, true, true, false],
        [false, false, false, false],
    ],
    [
        [false, false, false, false],
        [true, true, true, false],
        [true, false, false, false],
        [false, false, false, false],
    ],
    [
        [true, true, false, false],
        [false, true, false, false],
        [false, true, false, false],
        [false, false, false, false],
    ],
];

pub const U_SHAPES: [Shape; 4] = [
    [
        [true, false, true, false],
        [true, true, true, false],
        [false, false, false, false],
        [false, false, false, false],
    ],
    [
        [false, true, true, false],
        [false, true, false, false],
        [false, true, true, false],
        [false, false, false, false],
    ],
    [
        [false, false, false, false],
        [true, true, true, false],
        [true, false, true, false],
        [false, false, false, false],
    ],
    [
        [true, true, false, false],
        [false, true, false, false],
        [true, true, false, false],
        [false, false, false, false],
    ],
];

pub const V_SHAPES: [Shape; 4] = [
    [
        [true, false, false, false],
        [true, false, false, false],
        [true, true, true, false],
        [false, false, false, false],
    ],
    [
        [false, false, true, false],
        [false, false, true, false],
        [true, true, true, false],
        [false, false, false, false],
    ],
    [
        [false, false, false, false],
        [true, true, true, false],
        [false, false, true, false],
        [false, false, true, false],
    ],
    [
        [true, true, true, false],
        [true, false, false, false],
        [true, false, false, false],
        [false, false, false, false],
    ],
];

pub const W_SHAPES: [Shape; 4] = [
    [
        [true, false, false, false],
        [true, true, false, false],
        [false, true, true, false],
        [false, false, false, false],
    ],
    [
        [false, false, true, false],
        [false, true, true, false],
        [false, true, false, false],
        [false, true, false, false],
    ],
    [
        [false, false, false, false],
        [true, true, false, false],
        [false, true, true, false],
        [false, false, true, false],
    ],
    [
        [false, true, false, false],
        [true, true, false, false],
        [true, false, false, false],
        [false, false, false, false],
    ],
];

pub const X_SHAPES: [Shape; 1] = [
    [
        [false, true, false, false],
        [true, true, true, false],
        [false, true, false, false],
        [false, false, false, false],
    ],
];

pub const Y_SHAPES: [Shape; 4] = [
    [
        [false, true, false, false],
        [true, true, true, false],
        [false, true, false, false],
        [false, true, false, false],
    ],
    [
        [false, true, true, false],
        [false, true, false, false],
        [false, true, true, false],
        [false, true, false, false],
    ],
    [
        [false, true, false, false],
        [false, true, false, false],
        [true, true, true, false],
        [false, true, false, false],
    ],
    [
        [false, true, false, false],
        [true, true, false, false],
        [false, true, false, false],
        [true, true, false, false],
    ],
];

pub const Z_CUSTOM_SHAPES: [Shape; 4] = [
    [
        [true, true, false, false],
        [false, true, true, false],
        [false, false, true, false],
        [false, false, false, false],
    ],
    [
        [false, false, true, false],
        [false, true, true, false],
        [false, true, false, false],
        [false, true, false, false],
    ],
    [
        [false, false, false, false],
        [true, false, false, false],
        [true, true, false, false],
        [false, true, true, false],
    ],
    [
        [false, true, false, false],
        [false, true, false, false],
        [false, true, true, false],
        [true, false, false, false],
    ],
];

/// Whether the cell at (`row`, `col`) of the bounding box belongs to the piece.
/// Cells outside the bounding box never do.
pub open spec fn occupied(shape: Shape, row: int, col: int) -> bool {
    0 <= row < SHAPE_SIZE && 0 <= col < SHAPE_SIZE && shape[row][col]
}

} // verus!
