//! The sequencer: holds the phases of the current pattern and walks through
//! them, one phase per row, round and round.

use vstd::prelude::*;
use crate::pattern::{pattern_rows, BoolPatternMatrix};
use crate::phase::{build_sequence, encode_phase};
use crate::pins::{emission, ApplyPinState, PinState, PinStates, PINS_HIZ};
use crate::topology::{pin_for, spec_col_for, N_COLS, N_PINS, N_ROWS};

verus! {

/// The phases of a pattern, by row.
pub type PinSequence = [PinStates; N_ROWS];

/// The phases of a sequence as sequences, row by row.
pub open spec fn sequence_phases(sequence: PinSequence) -> Seq<Seq<PinState>> {
    Seq::new(N_ROWS as nat, |row: int| sequence@[row]@)
}

/// The row that follows `index` in the cycle.
pub open spec fn next_index(index: int) -> int {
    (index + 1) % (N_ROWS as int)
}

/// The row reached from `index` by `steps` steps.
pub open spec fn index_after(index: int, steps: nat) -> int
    decreases steps,
{
    if steps == 0 {
        index
    } else {
        next_index(index_after(index, (steps - 1) as nat))
    }
}

/// The phases of one pattern and a cursor into them.
#[derive(Copy, Clone)]
pub struct Sequencer {
    sequence: PinSequence,
    index: usize,
}

/// What a sequencer holds: the phases of its pattern, by row, and the row
/// whose phase is emitted next.
pub struct SequencerView {
    pub phases: Seq<Seq<PinState>>,
    pub index: int,
}

impl View for Sequencer {
    type V = SequencerView;

    closed spec fn view(&self) -> SequencerView {
        SequencerView { phases: sequence_phases(self.sequence), index: self.index as int }
    }
}

/// The driving interface: build from a pattern, replace the pattern, emit
/// the current phase, step to the next.
pub trait Charlieplexer: Sized {
    /// The phases held, by row.
    spec fn phases(&self) -> Seq<Seq<PinState>>;

    /// The row whose phase is emitted next.
    spec fn cursor(&self) -> int;

    /// Computes the phases of `item` and starts at row 0.
    fn new(item: BoolPatternMatrix) -> (plexer: Self)
        ensures
            plexer.phases() == build_sequence(pattern_rows(item)),
            plexer.cursor() == 0,
    ;

    /// Replaces the phases by those of `pattern`; the cursor stays where it is.
    fn update(&mut self, pattern: BoolPatternMatrix)
        ensures
            final(self).phases() == build_sequence(pattern_rows(pattern)),
            final(self).cursor() == old(self).cursor(),
    ;

    /// Emits the phase at the cursor: one command per pin, by ascending pin
    /// index.
    fn apply<T>(&self, gpio: &mut T) where T: ApplyPinState
        ensures
            final(gpio).applied() == old(gpio).applied() + emission(self.phases()[self.cursor()]),
    ;

    /// Steps to the next row, back to row 0 after the last, and returns the
    /// sequencer as it then is.
    fn next(&mut self) -> (stepped: Sequencer)
        ensures
            final(self).phases() == old(self).phases(),
            final(self).cursor() == next_index(old(self).cursor()),
            stepped@.phases == final(self).phases(),
            stepped@.index == final(self).cursor(),
    ;
}

impl Sequencer {
    #[verifier::type_invariant]
    spec fn in_range(self) -> bool {
        self.index < N_ROWS
    }

    /// The pin states of row `row`'s phase, from that row of the pattern.
    pub fn row_to_pin_states(row: usize, pattern: &[bool; N_COLS]) -> (pin_states: PinStates)
        requires
            row < N_ROWS,
        ensures
            pin_states@ == encode_phase(row as int, pattern@),
    {
        let mut pin_states = PINS_HIZ;
        let mut any_on = false;
        let mut col: usize = 0;
        while col < N_COLS
            invariant
                row < N_ROWS,
                col <= N_COLS,
                any_on <==> exists|c: int| 0 <= c < col && pattern@[c],
                forall|pin: int|
                    0 <= pin < N_PINS ==> #[trigger] pin_states@[pin] == (if pin != row
                        && spec_col_for(row as int, pin) < col && pattern@[spec_col_for(
                        row as int,
                        pin,
                    )] {
                        PinState::High
                    } else {
                        PinState::Floating
                    }),
            decreases N_COLS - col,
        {
            let pin = pin_for(row, col);
            let is_on = pattern[col];
            pin_states[pin] = if is_on {
                PinState::High
            } else {
                PinState::Floating
            };
            if is_on {
                any_on = true;
            }
            col += 1;
        }
        pin_states[row] = if any_on {
            PinState::Low
        } else {
            PinState::Floating
        };
        proof {
            if any_on {
                let c = choose|c: int| 0 <= c < N_COLS && pattern@[c];
                assert(pattern@[c] == true);
            }
            assert(any_on == pattern@.contains(true));
            assert(pin_states@ =~= encode_phase(row as int, pattern@));
        }
        pin_states
    }

    /// The phases of every row of `pattern`, in row order.
    pub fn to_pin_sequence(pattern: BoolPatternMatrix) -> (sequence: PinSequence)
        ensures
            sequence_phases(sequence) == build_sequence(pattern_rows(pattern)),
    {
        let mut seq = [PINS_HIZ, PINS_HIZ, PINS_HIZ, PINS_HIZ, PINS_HIZ, PINS_HIZ];
        let mut row: usize = 0;
        while row < N_ROWS
            invariant
                row <= N_ROWS,
                forall|r: int| 0 <= r < row ==> (#[trigger] seq@[r])@ == encode_phase(r, pattern@[r]@),
            decreases N_ROWS - row,
        {
            seq[row] = Self::row_to_pin_states(row, &pattern[row]);
            row += 1;
        }
        proof {
            assert(sequence_phases(seq) =~= build_sequence(pattern_rows(pattern)));
        }
        seq
    }

    /// The row whose phase is emitted next.
    pub fn index(&self) -> (index: usize)
        ensures
            index == self@.index,
            index < N_ROWS,
    {
        proof {
            use_type_invariant(self);
        }
        self.index
    }

    /// The phase at the cursor.
    pub fn current(&self) -> (phase: PinStates)
        ensures
            phase@ == self@.phases[self@.index],
    {
        proof {
            use_type_invariant(self);
        }
        self.sequence[self.index]
    }
}

impl Charlieplexer for Sequencer {
    open spec fn phases(&self) -> Seq<Seq<PinState>> {
        self@.phases
    }

    open spec fn cursor(&self) -> int {
        self@.index
    }

    fn new(item: BoolPatternMatrix) -> (plexer: Sequencer) {
        Sequencer { sequence: Self::to_pin_sequence(item), index: 0 }
    }

    fn update(&mut self, pattern: BoolPatternMatrix) {
        proof {
            use_type_invariant(&*self);
        }
        self.sequence = Self::to_pin_sequence(pattern);
    }

    fn apply<T>(&self, io: &mut T) where T: ApplyPinState {
        let phase = self.current();
        let ghost before = io.applied();
        let mut row_nr: usize = 0;
        while row_nr < N_PINS
            invariant
                row_nr <= N_PINS,
                io.applied() == before + emission(phase@).subrange(0, row_nr as int),
            decreases N_PINS - row_nr,
        {
            let level = phase[row_nr];
            io.apply(row_nr, level);
            proof {
                assert(emission(phase@).subrange(0, row_nr + 1) =~= emission(phase@).subrange(
                    0,
                    row_nr as int,
                ).push((row_nr, level)));
                assert(io.applied() =~= before + emission(phase@).subrange(0, row_nr + 1));
            }
            row_nr += 1;
        }
        proof {
            assert(emission(phase@).subrange(0, N_PINS as int) =~= emission(phase@));
        }
    }

    fn next(&mut self) -> (stepped: Sequencer)
        ensures
            stepped == *final(self),
    {
        proof {
            use_type_invariant(&*self);
        }
        self.index = (self.index + 1) % self.sequence.len();
        *self
    }
}

/// Stepping round the cycle: `steps` steps from row `index` reach row
/// `(index + steps) mod N_ROWS`.
pub proof fn lemma_index_after(index: int, steps: nat)
    requires
        0 <= index < N_ROWS,
    ensures
        index_after(index, steps) == (index + steps) % (N_ROWS as int),
    decreases steps,
{
    if steps > 0 {
        lemma_index_after(index, (steps - 1) as nat);
    }
}

/// From row 0, the first `N_ROWS - 1` steps reach rows 1, 2, ... in order,
/// and step number `N_ROWS` is back at row 0.
pub proof fn lemma_cycle_wraps()
    ensures
        forall|steps: nat| steps < N_ROWS ==> #[trigger] index_after(0, steps) == steps,
        index_after(0, N_ROWS as nat) == 0,
{
    assert forall|steps: nat| steps < N_ROWS implies #[trigger] index_after(0, steps) == steps by {
        lemma_index_after(0, steps);
    }
    lemma_index_after(0, N_ROWS as nat);
}

/// Replacing the pattern keeps the cursor, so the next emission is that of
/// the new pattern's row at the cursor: with `after` the sequencer that
/// `update` leaves from `before`, it issues the commands of that row's phase.
pub proof fn lemma_update_keeps_row(
    before: Sequencer,
    after: Sequencer,
    pattern: BoolPatternMatrix,
)
    requires
        0 <= before.cursor() < N_ROWS,
        after.phases() == build_sequence(pattern_rows(pattern)),
        after.cursor() == before.cursor(),
    ensures
        after.phases()[after.cursor()] == encode_phase(
            before.cursor(),
            pattern@[before.cursor()]@,
        ),
        emission(after.phases()[after.cursor()]) == emission(
            encode_phase(before.cursor(), pattern@[before.cursor()]@),
        ),
{
}

/// Emitting twice from the same sequencer, with no step or update between,
/// issues the same commands both times: what the second emission adds to the
/// sink is what the first added.
pub proof fn lemma_emit_repeats(
    sequencer: Sequencer,
    before: Seq<(usize, PinState)>,
    once: Seq<(usize, PinState)>,
    twice: Seq<(usize, PinState)>,
)
    requires
        once == before + emission(sequencer.phases()[sequencer.cursor()]),
        twice == once + emission(sequencer.phases()[sequencer.cursor()]),
    ensures
        once.subrange(before.len() as int, once.len() as int) == emission(
            sequencer.phases()[sequencer.cursor()],
        ),
        twice.subrange(once.len() as int, twice.len() as int) == once.subrange(
            before.len() as int,
            once.len() as int,
        ),
{
    let commands = emission(sequencer.phases()[sequencer.cursor()]);
    assert(once.subrange(before.len() as int, once.len() as int) =~= commands);
    assert(twice.subrange(once.len() as int, twice.len() as int) =~= commands);
}

} // verus!
