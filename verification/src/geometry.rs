//! Board geometry: mapping pointer coordinates to board squares.
//!
//! The board occupies a square screen area divided into a 9x9 grid of
//! equal cells; the playable 8x8 grid is inset by half a cell on each
//! side, leaving a margin for coordinate labels. Coordinates are integer
//! pixels; the host rounds its pointer positions before calling in.

use vstd::prelude::*;

verus! {

/// A pointer position, in window coordinates (integer pixels).
#[derive(Clone, Copy, Debug, PartialEq, Eq, Structural)]
pub struct PointerPos {
    pub x: i64,
    pub y: i64,
}

/// Largest coordinate magnitude the geometry accepts; keeps every
/// intermediate sum comfortably inside `i64`.
pub const COORD_LIMIT: i64 = 0x1_0000_0000;

impl PointerPos {
    /// The position is within the coordinate range the geometry supports.
    pub open spec fn wf(self) -> bool {
        &&& -COORD_LIMIT <= self.x <= COORD_LIMIT
        &&& -COORD_LIMIT <= self.y <= COORD_LIMIT
    }
}

/// The square screen area allocated to the board.
#[derive(Clone, Copy, Debug, PartialEq, Eq, Structural)]
pub struct BoardArea {
    pub x: i64,
    pub y: i64,
    pub size: u32,
}

impl BoardArea {
    /// The area is placed within the supported coordinate range and is
    /// large enough for a grid with cells of at least one pixel.
    pub open spec fn wf(self) -> bool {
        &&& -COORD_LIMIT <= self.x <= COORD_LIMIT
        &&& -COORD_LIMIT <= self.y <= COORD_LIMIT
        &&& 9 <= self.size
    }

    /// One cell of the 9x9 grid, in pixels.
    pub open spec fn spec_cell_size(self) -> int {
        self.size as int / 9
    }

    /// Half-open containment test, as the host's hit testing uses.
    pub open spec fn spec_contains(self, p: PointerPos) -> bool {
        &&& self.x <= p.x < self.x + self.size
        &&& self.y <= p.y < self.y + self.size
    }

    /// Whether `p` lies inside the board's allocated area.
    pub fn contains(&self, p: PointerPos) -> (b: bool)
        requires
            self.wf(),
            p.wf(),
        ensures
            b == self.spec_contains(p),
    {
        self.x <= p.x && p.x < self.x + self.size as i64 && self.y <= p.y && p.y
            < self.y + self.size as i64
    }
}

/// An axis-aligned square region, used for the promotion-selector buttons.
#[derive(Clone, Copy, Debug, PartialEq, Eq, Structural)]
pub struct Region {
    pub x: i64,
    pub y: i64,
    pub size: u32,
}

impl Region {
    /// The region is placed within the supported coordinate range.
    pub open spec fn wf(self) -> bool {
        &&& -2 * COORD_LIMIT <= self.x <= 2 * COORD_LIMIT
        &&& -2 * COORD_LIMIT <= self.y <= 2 * COORD_LIMIT
    }

    /// Half-open containment test, as the host's hit testing uses.
    pub open spec fn spec_contains(self, p: PointerPos) -> bool {
        &&& self.x <= p.x < self.x + self.size
        &&& self.y <= p.y < self.y + self.size
    }

    /// Whether `p` lies inside the region.
    pub fn contains(&self, p: PointerPos) -> (b: bool)
        requires
            self.wf(),
            p.wf(),
        ensures
            b == self.spec_contains(p),
    {
        self.x <= p.x && p.x < self.x + self.size as i64 && self.y <= p.y && p.y
            < self.y + self.size as i64
    }
}

/// The square under a pointer position relative to the board's top-left
/// corner: a grid index is the floor of the offset, less the half-cell
/// margin, divided by the cell size. When the board is reversed the
/// column index is mirrored into the file and the row index is the rank;
/// otherwise the column is the file and the row is mirrored into the rank.
pub open spec fn spec_square(x: int, y: int, size: u32, reversed: bool) -> (int, int)
    recommends
        size >= 9,
{
    let c = size as int / 9;
    let col = (x - c / 2) / c;
    let row = (y - c / 2) / c;
    (
        if reversed {
            7 - col
        } else {
            col
        },
        if reversed {
            row
        } else {
            7 - row
        },
    )
}

/// Floor of `(v - c/2) / c` for an unsigned offset `v`.
fn grid_index(v: u32, c: u32) -> (i: i64)
    requires
        c >= 1,
    ensures
        i == (v as int - c as int / 2) / c as int,
        -1 <= i <= v,
{
    let half = c / 2;
    if v < half {
        proof {
            let n = v as int - c as int / 2;
            assert(n / c as int == -1) by (nonlinear_arith)
                requires
                    -(c as int) < n < 0,
                    c >= 1,
            ;
        }
        -1
    } else {
        let q = (v - half) / c;
        proof {
            assert((v - half) as int / c as int <= (v - half) as int) by (nonlinear_arith)
                requires
                    c >= 1,
                    v >= half,
            ;
        }
        q as i64
    }
}

/// Maps a pointer position, relative to the board's top-left corner, to
/// a (file, rank) pair of signed grid indices. The result may fall
/// outside `[0, 8)`; callers bounds-check it before use.
pub fn pointer_to_square(x: u32, y: u32, size: u32, reversed: bool) -> (fr: (i64, i64))
    requires
        size >= 9,
    ensures
        (fr.0 as int, fr.1 as int) == spec_square(x as int, y as int, size, reversed),
{
    let c = size / 9;
    let col = grid_index(x, c);
    let row = grid_index(y, c);
    let file = if reversed {
        7 - col
    } else {
        col
    };
    let rank = if reversed {
        row
    } else {
        7 - row
    };
    (file, rank)
}

/// Both indices lie within the playable 8x8 grid.
pub open spec fn spec_in_cell_bounds(file: int, rank: int) -> bool {
    0 <= file < 8 && 0 <= rank < 8
}

/// Whether a (file, rank) pair lies within the playable 8x8 grid.
pub fn in_cell_bounds(file: i64, rank: i64) -> (b: bool)
    ensures
        b == spec_in_cell_bounds(file as int, rank as int),
{
    file >= 0 && file < 8 && rank >= 0 && rank < 8
}

/// Top-left corner of the cell where the renderer places the piece on
/// (file, rank), relative to the board's top-left corner. Inverse
/// transform of `spec_square`: columns run left to right and rows top to
/// bottom, with the same orientation handling.
pub open spec fn spec_cell_origin(file: int, rank: int, size: u32, reversed: bool) -> (int, int)
    recommends
        0 <= file < 8,
        0 <= rank < 8,
        size >= 9,
{
    let c = size as int / 9;
    let col = if reversed {
        7 - file
    } else {
        file
    };
    let row = if reversed {
        7 - rank
    } else {
        rank
    };
    (c * col + c / 2, c * (7 - row) + c / 2)
}

/// Top-left corner of the rendered cell for (file, rank).
pub fn cell_origin(file: u8, rank: u8, size: u32, reversed: bool) -> (xy: (u32, u32))
    requires
        file < 8,
        rank < 8,
        size >= 9,
    ensures
        (xy.0 as int, xy.1 as int) == spec_cell_origin(file as int, rank as int, size, reversed),
{
    let c = size / 9;
    let col: u32 = if reversed {
        7 - file as u32
    } else {
        file as u32
    };
    let row: u32 = if reversed {
        7 - rank as u32
    } else {
        rank as u32
    };
    proof {
        assert(c * col <= c * 7 && c * (7 - row) <= c * 7 && c * 7 + c / 2 + c <= size)
            by (nonlinear_arith)
            requires
                c == size as int / 9,
                size >= 9,
                0 <= col <= 7,
                0 <= row <= 7,
        ;
    }
    (c * col + c / 2, c * (7 - row) + c / 2)
}

/// Round-trip law: every pointer position inside the rendered cell of an
/// in-bounds (file, rank), for either orientation, maps back to exactly
/// that (file, rank). In particular the cell's center does.
pub proof fn lemma_pointer_square_round_trip(
    file: int,
    rank: int,
    size: u32,
    reversed: bool,
    x: int,
    y: int,
)
    requires
        0 <= file < 8,
        0 <= rank < 8,
        size >= 9,
        spec_cell_origin(file, rank, size, reversed).0 <= x < spec_cell_origin(
            file,
            rank,
            size,
            reversed,
        ).0 + size as int / 9,
        spec_cell_origin(file, rank, size, reversed).1 <= y < spec_cell_origin(
            file,
            rank,
            size,
            reversed,
        ).1 + size as int / 9,
    ensures
        spec_square(x, y, size, reversed) == (file, rank),
{
    let c = size as int / 9;
    let col = if reversed {
        7 - file
    } else {
        file
    };
    let row = if reversed {
        7 - rank
    } else {
        rank
    };
    assert((x - c / 2) / c == col) by (nonlinear_arith)
        requires
            c >= 1,
            c * col + c / 2 <= x < c * col + c / 2 + c,
    ;
    assert((y - c / 2) / c == 7 - row) by (nonlinear_arith)
        requires
            c >= 1,
            c * (7 - row) + c / 2 <= y < c * (7 - row) + c / 2 + c,
    ;
}

} // verus!
