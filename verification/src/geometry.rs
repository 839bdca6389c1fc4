//! Screen coordinates and sizes.

use vstd::prelude::*;

verus! {

/// Index of a byte inside a line of text.
pub type ByteIdx = usize;

/// Index of a line inside a collection of items.
pub type LineIdx = usize;

/// Index of a column on the screen.
pub type ColIdx = usize;

/// Index of a row on the screen.
pub type RowIdx = usize;

/// A place on the screen.
#[derive(Clone, Copy, Debug, PartialEq, Eq, Structural, Default)]
pub struct Position {
    pub col: ColIdx,
    pub row: RowIdx,
}

/// The extent of a rectangular area of the screen.
#[derive(Clone, Copy, Debug, PartialEq, Eq, Structural, Default)]
pub struct Size {
    pub height: usize,
    pub width: usize,
}

/// The difference `a - b`, or zero where `b` exceeds `a`.
pub open spec fn sat_sub(a: int, b: int) -> int {
    if a >= b {
        a - b
    } else {
        0
    }
}

/// The smaller of two integers.
pub open spec fn least(a: int, b: int) -> int {
    if a <= b {
        a
    } else {
        b
    }
}

impl Position {
    /// Subtracts `other` from `self` coordinate by coordinate, stopping at zero.
    pub fn saturating_sub(self, other: Self) -> (r: Self)
        ensures
            r.row == sat_sub(self.row as int, other.row as int),
            r.col == sat_sub(self.col as int, other.col as int),
    {
        Self { row: self.row.saturating_sub(other.row), col: self.col.saturating_sub(other.col) }
    }
}

} // verus!
