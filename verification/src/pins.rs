//! Pin states and the capability through which they reach the hardware.

use vstd::prelude::*;
use crate::topology::N_PINS;

verus! {

/// The electrical drive level of one pin during one phase.
#[derive(Clone, Copy, Debug, PartialEq, Eq, Structural)]
pub enum PinState {
    /// Driven to ground: the pin sinks current.
    Low,
    /// Driven to the supply: the pin sources current.
    High,
    /// High impedance: the pin is disconnected from the circuit.
    Floating,
}

/// The states of all pins during one phase, by pin index.
pub type PinStates = [PinState; N_PINS];

/// Every pin floating.
pub const PINS_HIZ: PinStates = [
    PinState::Floating,
    PinState::Floating,
    PinState::Floating,
    PinState::Floating,
    PinState::Floating,
    PinState::Floating,
];

/// Every pin high.
pub const PINS_HIGH: PinStates = [
    PinState::High,
    PinState::High,
    PinState::High,
    PinState::High,
    PinState::High,
    PinState::High,
];

/// Every pin low.
pub const PINS_LOW: PinStates = [
    PinState::Low,
    PinState::Low,
    PinState::Low,
    PinState::Low,
    PinState::Low,
    PinState::Low,
];

/// The capability through which pin states reach the hardware. The driver of
/// the physical pins implements it.
pub trait ApplyPinState {
    /// Every command received so far, oldest first: the pin and its state.
    /// A verified sink states it over what it holds. The default body lets a
    /// sink written in plain Rust leave it out; of such a sink nothing is
    /// proved.
    open spec fn applied(&self) -> Seq<(usize, PinState)> {
        Seq::empty()
    }

    /// Puts pin `row_nr` into `state`.
    fn apply(&mut self, row_nr: usize, state: PinState)
        requires
            row_nr < N_PINS,
        ensures
            final(self).applied() == old(self).applied().push((row_nr, state)),
    ;
}

/// The commands that emitting `phase` issues: one per pin, by ascending pin
/// index, each with the pin's state in `phase`.
pub open spec fn emission(phase: Seq<PinState>) -> Seq<(usize, PinState)> {
    Seq::new(phase.len(), |pin: int| (pin as usize, phase[pin]))
}

/// A capability that keeps every command it receives, in order.
pub struct PinLog {
    commands: Vec<(usize, PinState)>,
}

impl PinLog {
    /// A log with no command in it.
    pub fn new() -> (log: Self)
        ensures
            log.applied() == Seq::<(usize, PinState)>::empty(),
    {
        PinLog { commands: Vec::new() }
    }

    /// The commands received so far, oldest first.
    pub fn commands(&self) -> (commands: &Vec<(usize, PinState)>)
        ensures
            commands@ == self.applied(),
    {
        &self.commands
    }
}

impl ApplyPinState for PinLog {
    closed spec fn applied(&self) -> Seq<(usize, PinState)> {
        self.commands@
    }

    fn apply(&mut self, row_nr: usize, state: PinState) {
        self.commands.push((row_nr, state));
    }
}

} // verus!
