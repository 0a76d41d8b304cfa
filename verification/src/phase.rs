//! The pin states of one multiplexing phase, derived from one row of the
//! pattern, and the sequence of all phases.

use vstd::prelude::*;
use crate::pattern::{pattern_rows, ALL_OFF, ALL_ON};
use crate::pins::{emission, PinState, PINS_HIZ};
use crate::topology::{spec_col_for, spec_pin_for, N_COLS, N_PINS, N_ROWS};

verus! {

/// The phase of row `row`: the row's own pin is low when any of its LEDs is
/// lit, a pin wired to a lit column is high, every other pin floats.
pub open spec fn encode_phase(row: int, row_pattern: Seq<bool>) -> Seq<PinState> {
    Seq::new(
        N_PINS as nat,
        |pin: int|
            if pin == row {
                if row_pattern.contains(true) {
                    PinState::Low
                } else {
                    PinState::Floating
                }
            } else if row_pattern[spec_col_for(row, pin)] {
                PinState::High
            } else {
                PinState::Floating
            },
    )
}

/// The phases of a whole pattern: the phase of each row, in row order.
pub open spec fn build_sequence(rows: Seq<Seq<bool>>) -> Seq<Seq<PinState>> {
    Seq::new(N_ROWS as nat, |row: int| encode_phase(row, rows[row]))
}

/// Pin `pin` is wired to a lit column of row `row`.
pub open spec fn driven_by(row: int, row_pattern: Seq<bool>, pin: int) -> bool {
    exists|col: int|
        0 <= col < N_COLS && #[trigger] row_pattern[col] && spec_pin_for(row, col) == pin
}

/// A row with no LED lit floats every pin, its own included.
pub proof fn lemma_dark_row_floats(row: int, row_pattern: Seq<bool>)
    requires
        0 <= row < N_ROWS,
        row_pattern.len() == N_COLS,
        forall|col: int| 0 <= col < N_COLS ==> !row_pattern[col],
    ensures
        encode_phase(row, row_pattern) == PINS_HIZ@,
        forall|pin: int|
            0 <= pin < N_PINS ==> encode_phase(row, row_pattern)[pin] == PinState::Floating,
{
    assert(encode_phase(row, row_pattern) =~= PINS_HIZ@);
}

/// A row with the LED at column `col` lit drives that column's pin high and
/// its own pin low; a pin other than the row's that no lit column is wired to
/// floats.
pub proof fn lemma_lit_column_drives(row: int, row_pattern: Seq<bool>, col: int)
    requires
        0 <= row < N_ROWS,
        row_pattern.len() == N_COLS,
        0 <= col < N_COLS,
        row_pattern[col],
    ensures
        encode_phase(row, row_pattern)[spec_pin_for(row, col)] == PinState::High,
        encode_phase(row, row_pattern)[row] == PinState::Low,
        forall|pin: int|
            0 <= pin < N_PINS && pin != row && !driven_by(row, row_pattern, pin)
                ==> #[trigger] encode_phase(row, row_pattern)[pin] == PinState::Floating,
{
    let phase = encode_phase(row, row_pattern);
    assert(row_pattern.contains(true));
    assert forall|pin: int|
        0 <= pin < N_PINS && pin != row && !driven_by(row, row_pattern, pin)
    implies #[trigger] phase[pin] == PinState::Floating by {
        let c = spec_col_for(row, pin);
        if row_pattern[c] {
            assert(spec_pin_for(row, c) == pin);
            assert(driven_by(row, row_pattern, pin));
        }
    }
}

/// Every phase has one of two shapes: all pins float; or the row's own pin is
/// the one low pin, exactly the pins wired to lit columns are high, and the
/// rest float.
pub proof fn lemma_phase_shape(row: int, row_pattern: Seq<bool>)
    requires
        0 <= row < N_ROWS,
        row_pattern.len() == N_COLS,
    ensures
        encode_phase(row, row_pattern).len() == N_PINS,
        !row_pattern.contains(true) ==> encode_phase(row, row_pattern) == PINS_HIZ@,
        row_pattern.contains(true) ==> forall|pin: int|
            0 <= pin < N_PINS ==> #[trigger] encode_phase(row, row_pattern)[pin] == (if pin
                == row {
                PinState::Low
            } else if driven_by(row, row_pattern, pin) {
                PinState::High
            } else {
                PinState::Floating
            }),
{
    let phase = encode_phase(row, row_pattern);
    if !row_pattern.contains(true) {
        assert forall|col: int| 0 <= col < N_COLS implies !row_pattern[col] by {
            if row_pattern[col] {
                assert(row_pattern.contains(true));
            }
        }
        lemma_dark_row_floats(row, row_pattern);
    } else {
        assert forall|pin: int| 0 <= pin < N_PINS implies #[trigger] phase[pin] == (if pin
            == row {
            PinState::Low
        } else if driven_by(row, row_pattern, pin) {
            PinState::High
        } else {
            PinState::Floating
        }) by {
            if pin != row {
                let c = spec_col_for(row, pin);
                if row_pattern[c] {
                    assert(spec_pin_for(row, c) == pin);
                    assert(driven_by(row, row_pattern, pin));
                }
            }
        }
    }
}

/// With every LED dark, every phase floats every pin, and emitting any phase
/// commands every pin to float.
pub proof fn lemma_all_off_floats()
    ensures
        forall|row: int, pin: int|
            0 <= row < N_ROWS && 0 <= pin < N_PINS ==> #[trigger] build_sequence(
                pattern_rows(ALL_OFF),
            )[row][pin] == PinState::Floating,
        forall|row: int, pin: int|
            0 <= row < N_ROWS && 0 <= pin < N_PINS ==> #[trigger] emission(
                build_sequence(pattern_rows(ALL_OFF))[row],
            )[pin] == (pin as usize, PinState::Floating),
{
}

/// With every LED lit, phase `row` pulls pin `row` low and every other pin
/// high, and emitting it commands the pins so.
pub proof fn lemma_all_on_drives()
    ensures
        forall|row: int, pin: int|
            0 <= row < N_ROWS && 0 <= pin < N_PINS ==> #[trigger] build_sequence(
                pattern_rows(ALL_ON),
            )[row][pin] == (if pin == row {
                PinState::Low
            } else {
                PinState::High
            }),
        forall|row: int, pin: int|
            0 <= row < N_ROWS && 0 <= pin < N_PINS ==> #[trigger] emission(
                build_sequence(pattern_rows(ALL_ON))[row],
            )[pin] == (pin as usize, if pin == row {
                PinState::Low
            } else {
                PinState::High
            }),
{
}

} // verus!
