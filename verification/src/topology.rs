//! The wiring of the matrix: which pin completes the circuit of the LED at
//! a given row and column.

use vstd::prelude::*;

verus! {

/// Number of columns of the matrix: every pin but the row's own.
pub const N_COLS: usize = 5;

/// Number of rows of the matrix, one per physical pin.
pub const N_ROWS: usize = 6;

/// Number of physical pins.
pub const N_PINS: usize = N_ROWS;

/// For each row, the pins of its columns: all pins but the row's own, ascending.
pub const ROW_COL_TO_PIN: [[usize; N_COLS]; N_ROWS] = [
    [1, 2, 3, 4, 5],
    [0, 2, 3, 4, 5],
    [0, 1, 3, 4, 5],
    [0, 1, 2, 4, 5],
    [0, 1, 2, 3, 5],
    [0, 1, 2, 3, 4],
];

/// The pin that column `col` of row `row` is wired to: columns below the row's
/// own pin keep their number, the others are shifted up by one.
pub open spec fn spec_pin_for(row: int, col: int) -> int {
    if col < row {
        col
    } else {
        col + 1
    }
}

/// The column of row `row` that pin `pin` is wired to; the inverse of
/// `spec_pin_for` on the pins other than `row`.
pub open spec fn spec_col_for(row: int, pin: int) -> int {
    if pin < row {
        pin
    } else {
        pin - 1
    }
}

/// Looks up the pin that sinks or sources the LED at (`row`, `col`).
pub fn pin_for(row: usize, col: usize) -> (pin: usize)
    requires
        row < N_ROWS,
        col < N_COLS,
    ensures
        pin == spec_pin_for(row as int, col as int),
        pin < N_PINS,
        pin != row,
{
    ROW_COL_TO_PIN[row][col]
}

/// The wiring of one row: the table holds `spec_pin_for`; no column is wired
/// to the row's own pin; every column is wired to a pin of the bank; two
/// columns are never wired to the same pin; and every pin but the row's own
/// is wired to some column.
pub proof fn lemma_row_wiring(row: int)
    requires
        0 <= row < N_ROWS,
    ensures
        forall|col: int|
            0 <= col < N_COLS ==> ROW_COL_TO_PIN@[row]@[col] == #[trigger] spec_pin_for(row, col),
        forall|col: int| 0 <= col < N_COLS ==> #[trigger] spec_pin_for(row, col) != row,
        forall|col: int| 0 <= col < N_COLS ==> 0 <= #[trigger] spec_pin_for(row, col) < N_PINS,
        forall|col: int, other: int|
            0 <= col < N_COLS && 0 <= other < N_COLS && col != other ==> #[trigger] spec_pin_for(
                row,
                col,
            ) != #[trigger] spec_pin_for(row, other),
        forall|pin: int|
            0 <= pin < N_PINS && pin != row ==> 0 <= #[trigger] spec_col_for(row, pin) < N_COLS
                && spec_pin_for(row, spec_col_for(row, pin)) == pin,
{
}

} // verus!
