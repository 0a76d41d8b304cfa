use charlieplex::{
    ApplyPinState, BoolPatternMatrix, Charlieplexer, PinLog, PinState, Sequencer, ALL_OFF, ALL_ON,
    N_PINS, N_ROWS,
};

const F: PinState = PinState::Floating;
const H: PinState = PinState::High;
const L: PinState = PinState::Low;

/// A bank of pins that remembers the last state of each, and how many
/// commands it has seen.
struct Bank {
    states: [Option<PinState>; 6],
    seen: usize,
}

impl ApplyPinState for Bank {
    fn apply(&mut self, row_nr: usize, state: PinState) {
        self.states[row_nr] = Some(state);
        self.seen += 1;
    }
}

fn emitted(sequencer: &Sequencer) -> Vec<(usize, PinState)> {
    let mut log = PinLog::new();
    sequencer.apply(&mut log);
    log.commands().clone()
}

fn in_pin_order(states: [PinState; 6]) -> Vec<(usize, PinState)> {
    states.iter().copied().enumerate().collect()
}

fn one_led_per_row() -> BoolPatternMatrix {
    let mut pattern = ALL_OFF;
    for row in 0..N_ROWS {
        pattern[row][0] = true;
    }
    pattern
}

#[test]
fn new_log_is_empty() {
    assert!(PinLog::new().commands().is_empty());
}

#[test]
fn log_keeps_commands_in_order() {
    let mut log = PinLog::new();
    log.apply(3, H);
    log.apply(0, L);
    log.apply(3, F);
    assert_eq!(log.commands(), &vec![(3, H), (0, L), (3, F)]);
}

#[test]
fn construction_starts_at_row_zero() {
    let sequencer = Sequencer::new(ALL_ON);
    assert_eq!(sequencer.index(), 0);
    assert_eq!(sequencer.current(), [L, H, H, H, H, H]);
    assert_eq!(emitted(&sequencer), in_pin_order([L, H, H, H, H, H]));
}

#[test]
fn emit_issues_one_command_per_pin_in_ascending_order() {
    let sequencer = Sequencer::new(one_led_per_row());
    let commands = emitted(&sequencer);
    assert_eq!(commands.len(), N_PINS);
    for pin in 0..N_PINS {
        assert_eq!(commands[pin].0, pin);
    }
    assert_eq!(commands, in_pin_order([L, H, F, F, F, F]));
}

#[test]
fn emit_appends_to_what_the_sink_already_holds() {
    let sequencer = Sequencer::new(ALL_ON);
    let mut log = PinLog::new();
    log.apply(4, F);
    sequencer.apply(&mut log);
    let mut expected = vec![(4, F)];
    expected.extend(in_pin_order([L, H, H, H, H, H]));
    assert_eq!(log.commands(), &expected);
}

#[test]
fn emit_reaches_a_sink_of_the_caller() {
    let mut sequencer = Sequencer::new(ALL_ON);
    sequencer.next();
    let mut bank = Bank { states: [None; 6], seen: 0 };
    sequencer.apply(&mut bank);
    assert_eq!(bank.seen, 6);
    assert_eq!(
        bank.states,
        [Some(H), Some(L), Some(H), Some(H), Some(H), Some(H)]
    );
}

#[test]
fn all_off_round_trip_floats_every_pin_in_every_phase() {
    let mut sequencer = Sequencer::new(ALL_OFF);
    for _ in 0..N_ROWS {
        assert_eq!(emitted(&sequencer), in_pin_order([F; 6]));
        sequencer.next();
    }
}

#[test]
fn all_on_round_trip_pulls_the_row_low_and_the_rest_high() {
    let mut sequencer = Sequencer::new(ALL_ON);
    for row in 0..N_ROWS {
        let commands = emitted(&sequencer);
        for pin in 0..N_PINS {
            assert_eq!(commands[pin], (pin, if pin == row { L } else { H }));
        }
        sequencer.next();
    }
}

#[test]
fn advancing_walks_the_rows_in_order_and_wraps() {
    let mut sequencer = Sequencer::new(ALL_ON);
    for row in 0..N_ROWS {
        assert_eq!(emitted(&sequencer)[row], (row, L));
        sequencer.next();
    }
    assert_eq!(emitted(&sequencer)[0], (0, L));
    assert_eq!(emitted(&sequencer), emitted(&Sequencer::new(ALL_ON)));
}

#[test]
fn six_steps_visit_every_row_and_return_to_row_zero() {
    let mut sequencer = Sequencer::new(one_led_per_row());
    let mut visited = Vec::new();
    for _ in 0..N_ROWS {
        visited.push(sequencer.index());
        sequencer.next();
    }
    assert_eq!(visited, vec![0, 1, 2, 3, 4, 5]);
    assert_eq!(sequencer.index(), 0);
    for _ in 0..N_ROWS {
        sequencer.next();
    }
    assert_eq!(sequencer.index(), 0);
}

#[test]
fn current_is_the_phase_at_the_cursor() {
    let pattern = one_led_per_row();
    let sequence = Sequencer::to_pin_sequence(pattern);
    let mut sequencer = Sequencer::new(pattern);
    for row in 0..N_ROWS {
        assert_eq!(sequencer.current(), sequence[row]);
        assert_eq!(emitted(&sequencer), in_pin_order(sequence[row]));
        sequencer.next();
    }
}

#[test]
fn next_returns_the_stepped_sequencer() {
    let mut sequencer = Sequencer::new(ALL_ON);
    let stepped = sequencer.next();
    assert_eq!(stepped.index(), 1);
    assert_eq!(sequencer.index(), 1);
    assert_eq!(emitted(&stepped), in_pin_order([H, L, H, H, H, H]));
    assert_eq!(emitted(&stepped), emitted(&sequencer));
}

#[test]
fn chained_steps_advance_a_copy() {
    let mut sequencer = Sequencer::new(ALL_ON);
    let twice = sequencer.next().next();
    assert_eq!(emitted(&twice), in_pin_order([H, H, L, H, H, H]));
    assert_eq!(emitted(&sequencer), in_pin_order([H, L, H, H, H, H]));
}

#[test]
fn update_keeps_the_cursor_and_shows_the_new_pattern() {
    let mut sequencer = Sequencer::new(ALL_OFF);
    sequencer.next();
    sequencer.next();
    sequencer.next();
    assert_eq!(emitted(&sequencer), in_pin_order([F; 6]));
    assert_eq!(sequencer.index(), 3);
    sequencer.update(ALL_ON);
    assert_eq!(sequencer.index(), 3);
    assert_eq!(emitted(&sequencer), in_pin_order([H, H, H, L, H, H]));
    sequencer.next();
    assert_eq!(emitted(&sequencer), in_pin_order([H, H, H, H, L, H]));
}

#[test]
fn update_replaces_every_phase() {
    let mut sequencer = Sequencer::new(ALL_ON);
    sequencer.update(ALL_OFF);
    for _ in 0..N_ROWS {
        assert_eq!(emitted(&sequencer), in_pin_order([F; 6]));
        sequencer.next();
    }
}

#[test]
fn emitting_twice_gives_the_same_commands() {
    let mut sequencer = Sequencer::new(one_led_per_row());
    sequencer.next();
    let first = emitted(&sequencer);
    let second = emitted(&sequencer);
    assert_eq!(first, second);
    assert_eq!(first, in_pin_order([H, L, F, F, F, F]));

    let mut log = PinLog::new();
    sequencer.apply(&mut log);
    sequencer.apply(&mut log);
    assert_eq!(log.commands().len(), 12);
    assert_eq!(log.commands()[..6], log.commands()[6..]);
}

#[test]
fn the_pattern_is_copied_in() {
    let mut pattern = ALL_OFF;
    let sequencer = Sequencer::new(pattern);
    pattern[0] = [true; 5];
    assert_eq!(pattern[0], [true; 5]);
    assert_eq!(emitted(&sequencer), in_pin_order([F; 6]));
}
