//! The logical pattern: which LEDs of the matrix are lit.

use vstd::prelude::*;
use crate::topology::{N_COLS, N_ROWS};

verus! {

/// One boolean per LED: cell (`row`, `col`) is lit when pin `row` sinks and
/// the pin wired to column `col` of that row sources.
pub type BoolPatternMatrix = [[bool; N_COLS]; N_ROWS];

/// Every LED lit.
pub const ALL_ON: BoolPatternMatrix = [
    [true, true, true, true, true],
    [true, true, true, true, true],
    [true, true, true, true, true],
    [true, true, true, true, true],
    [true, true, true, true, true],
    [true, true, true, true, true],
];

/// Every LED dark.
pub const ALL_OFF: BoolPatternMatrix = [
    [false, false, false, false, false],
    [false, false, false, false, false],
    [false, false, false, false, false],
    [false, false, false, false, false],
    [false, false, false, false, false],
    [false, false, false, false, false],
];

/// The rows of a pattern as sequences, row by row.
pub open spec fn pattern_rows(pattern: BoolPatternMatrix) -> Seq<Seq<bool>> {
    Seq::new(N_ROWS as nat, |row: int| pattern@[row]@)
}

} // verus!
