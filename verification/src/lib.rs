//! Charlieplexing driver core: turns an on/off pattern for a 6 x 5 LED matrix
//! into the pin states of each multiplexing phase, and steps through the phases.

pub mod pattern;
pub mod phase;
pub mod pins;
pub mod sequencer;
pub mod topology;

pub use pattern::{BoolPatternMatrix, ALL_OFF, ALL_ON};
pub use pins::{ApplyPinState, PinLog, PinState, PinStates, PINS_HIGH, PINS_HIZ, PINS_LOW};
pub use sequencer::{Charlieplexer, PinSequence, Sequencer};
pub use topology::{pin_for, N_COLS, N_PINS, N_ROWS, ROW_COL_TO_PIN};
