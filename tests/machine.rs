use turing_machine::config::{fields_of, lines_of};
use turing_machine::direction::{chars_of, dir_from_chars};
use turing_machine::{ConfigError, Direction, Instruction, StepError, TuringMachine};

fn loaded(cfg: &str) -> TuringMachine {
    let mut tm = TuringMachine::new();
    assert_eq!(tm.load_cfg(cfg), Ok(()));
    tm
}

const EXAMPLE: &str = "# flips a zero, then stops on a one\nA 01\nB\nA 0 A 1 right\nA 1 B 0 stay\n";

#[test]
fn new_machine_is_empty() {
    let tm = TuringMachine::new();
    assert_eq!(tm.get_state(), "");
    assert_eq!(tm.get_halt_state(), "");
    assert!(tm.get_tape().is_empty());
    assert_eq!(tm.get_tape_cell(), 0);
    assert!(tm.is_halt());
}

#[test]
fn load_sets_state_tape_and_halting_state() {
    let tm = loaded(EXAMPLE);
    assert_eq!(tm.get_state(), "A");
    assert_eq!(tm.get_halt_state(), "B");
    assert_eq!(tm.get_tape(), &['0', '1']);
    assert_eq!(tm.get_tape_cell(), 0);
    assert!(!tm.is_halt());
}

#[test]
fn end_to_end_two_steps_halt() {
    let mut tm = loaded(EXAMPLE);
    assert_eq!(tm.step(), Ok(()));
    assert_eq!(tm.get_tape(), &['1', '1']);
    assert_eq!(tm.get_state(), "A");
    assert_eq!(tm.get_tape_cell(), 1);
    assert!(!tm.is_halt());
    assert_eq!(tm.step(), Ok(()));
    assert_eq!(tm.get_tape(), &['1', '0']);
    assert_eq!(tm.get_state(), "B");
    assert_eq!(tm.get_tape_cell(), 1);
    assert!(tm.is_halt());
}

#[test]
fn step_writes_moves_and_changes_state() {
    let mut tm = loaded("q abc\nh\nq b r x left\nq a q y right\n");
    assert_eq!(tm.step(), Ok(()));
    assert_eq!(tm.get_tape(), &['y', 'b', 'c']);
    assert_eq!(tm.get_tape_cell(), 1);
    assert_eq!(tm.get_state(), "q");
    assert_eq!(tm.step(), Ok(()));
    assert_eq!(tm.get_tape(), &['y', 'x', 'c']);
    assert_eq!(tm.get_tape_cell(), 0);
    assert_eq!(tm.get_state(), "r");
}

#[test]
fn halted_stays_halted_when_asked_again() {
    let mut tm = loaded(EXAMPLE);
    tm.step().unwrap();
    tm.step().unwrap();
    for _ in 0..5 {
        assert!(tm.is_halt());
    }
    assert_eq!(tm.get_halt_state(), "B");
}

#[test]
fn first_matching_rule_wins() {
    let mut tm = loaded("A 0\nH\nA 0 B x stay\nA 0 C y stay\n");
    assert_eq!(tm.step(), Ok(()));
    assert_eq!(tm.get_state(), "B");
    assert_eq!(tm.get_tape(), &['x']);

    let mut swapped = loaded("A 0\nH\nA 0 C y stay\nA 0 B x stay\n");
    assert_eq!(swapped.step(), Ok(()));
    assert_eq!(swapped.get_state(), "C");
    assert_eq!(swapped.get_tape(), &['y']);
}

#[test]
fn moving_left_from_first_cell_is_out_of_bounds() {
    let mut tm = loaded("A 01\nH\nA 0 B 1 left\n");
    assert_eq!(tm.step(), Err(StepError::HeadOutOfBounds));
    assert_eq!(tm.get_tape(), &['0', '1']);
    assert_eq!(tm.get_state(), "A");
    assert_eq!(tm.get_tape_cell(), 0);
}

#[test]
fn moving_right_from_last_cell_is_out_of_bounds() {
    let mut tm = loaded("A 0\nH\nA 0 B 1 right\n");
    assert_eq!(tm.step(), Err(StepError::HeadOutOfBounds));
    assert_eq!(tm.get_tape(), &['0']);
    assert_eq!(tm.get_state(), "A");
    assert_eq!(tm.get_tape_cell(), 0);
}

#[test]
fn empty_tape_is_out_of_bounds() {
    let mut tm = TuringMachine::new();
    assert_eq!(tm.step(), Err(StepError::HeadOutOfBounds));
}

#[test]
fn no_matching_rule_is_stuck() {
    let mut tm = loaded("A 1\nH\nA 0 B 1 stay\nB 1 B 0 stay\n");
    assert!(!tm.is_halt());
    assert_eq!(tm.step(), Err(StepError::NoMatchingRule));
    assert_eq!(tm.get_tape(), &['1']);
    assert_eq!(tm.get_state(), "A");
    assert_eq!(tm.get_halt_state(), "H");
    assert_eq!(tm.get_tape_cell(), 0);
}

#[test]
fn reset_then_reload_matches_fresh_machine() {
    let mut reused = loaded("X 000\nY\nX 0 X 1 right\n");
    reused.step().unwrap();
    reused.reset();
    assert_eq!(reused.get_state(), "");
    assert_eq!(reused.get_halt_state(), "");
    assert!(reused.get_tape().is_empty());
    assert_eq!(reused.get_tape_cell(), 0);
    assert_eq!(reused.step(), Err(StepError::HeadOutOfBounds));

    let mut fresh = TuringMachine::new();
    assert_eq!(reused.load_cfg(EXAMPLE), Ok(()));
    assert_eq!(fresh.load_cfg(EXAMPLE), Ok(()));
    for _ in 0..3 {
        let a = reused.step();
        let b = fresh.step();
        assert_eq!(a, b);
        assert_eq!(reused.get_tape(), fresh.get_tape());
        assert_eq!(reused.get_state(), fresh.get_state());
        assert_eq!(reused.get_tape_cell(), fresh.get_tape_cell());
        assert_eq!(reused.is_halt(), fresh.is_halt());
    }
}

#[test]
fn comments_blank_lines_and_crlf_are_accepted() {
    let tm = loaded("# comment\r\n\r\n   \t\nS 10\r\nT\r\n#S 1 T 0 stay x y\n");
    assert_eq!(tm.get_state(), "S");
    assert_eq!(tm.get_tape(), &['1', '0']);
    assert_eq!(tm.get_halt_state(), "T");
}

#[test]
fn unicode_white_space_separates_fields() {
    let mut tm = loaded("S\u{3000}ab\nT\nS\u{a0}a\tT\u{2003}z   stay\n");
    assert_eq!(tm.get_state(), "S");
    assert_eq!(tm.get_tape(), &['a', 'b']);
    assert_eq!(tm.step(), Ok(()));
    assert_eq!(tm.get_tape(), &['z', 'b']);
    assert!(tm.is_halt());
}

#[test]
fn bad_field_count_is_refused() {
    let mut tm = TuringMachine::new();
    assert_eq!(tm.load_cfg("A 0\nH\nA 0 B\n"), Err(ConfigError::InvalidLine));
    // the lines before the refused one stay applied
    assert_eq!(tm.get_state(), "A");
    assert_eq!(tm.get_halt_state(), "H");
    let mut other = TuringMachine::new();
    assert_eq!(other.load_cfg("A 0 B 1 left extra\n"), Err(ConfigError::InvalidLine));
}

#[test]
fn bad_direction_is_refused() {
    let mut tm = TuringMachine::new();
    assert_eq!(tm.load_cfg("A 0\nA 0 B 1 up\nH\n"), Err(ConfigError::InvalidDirection));
    assert_eq!(tm.get_halt_state(), "");
}

#[test]
fn loading_stops_at_first_refused_line() {
    let mut tm = TuringMachine::new();
    assert_eq!(tm.load_cfg("A 0\nbad line of four\nH\n"), Err(ConfigError::InvalidLine));
    assert_eq!(tm.get_halt_state(), "");
    assert_eq!(tm.get_state(), "A");
}

#[test]
fn rule_symbols_take_first_character() {
    let mut tm = loaded("A 0\nH\nA 0xy H 1zz stay\n");
    assert_eq!(tm.step(), Ok(()));
    assert_eq!(tm.get_tape(), &['1']);
    assert!(tm.is_halt());
}

#[test]
fn direction_words_round_trip() {
    assert_eq!(Direction::str2dir("left"), Ok(Direction::Lhs));
    assert_eq!(Direction::str2dir("right"), Ok(Direction::Rhs));
    assert_eq!(Direction::str2dir("stay"), Ok(Direction::Stay));
    assert_eq!(Direction::str2dir("Left"), Err(ConfigError::InvalidDirection));
    assert_eq!(Direction::str2dir(""), Err(ConfigError::InvalidDirection));
    assert_eq!(Direction::str2dir("lefty"), Err(ConfigError::InvalidDirection));
    assert_eq!(Direction::dir2str(&Direction::Lhs), "left");
    assert_eq!(Direction::dir2str(&Direction::Rhs), "right");
    assert_eq!(Direction::dir2str(&Direction::Stay), "stay");
    assert_eq!(dir_from_chars(&vec!['s', 't', 'a', 'y']), Some(Direction::Stay));
}

#[test]
fn fields_split_on_white_space() {
    let line = chars_of("  ab \t c\u{2028}d  ");
    let f = fields_of(&line);
    assert_eq!(f, vec![vec!['a', 'b'], vec!['c'], vec!['d']]);
    assert!(fields_of(&chars_of(" \t ")).is_empty());
}

#[test]
fn lines_split_on_line_feed() {
    let ls = lines_of(&chars_of("a\n\nbc"));
    assert_eq!(ls, vec![vec!['a'], vec![], vec!['b', 'c']]);
    assert_eq!(lines_of(&chars_of("")), vec![Vec::<char>::new()]);
}

#[test]
fn instruction_describes_itself() {
    let ins = Instruction::new(String::from("A"), '0', String::from("B"), '1', Direction::Rhs);
    assert_eq!(
        ins.describe(),
        "instruction {current_state: A, current_symbol: 0, new_state: B, new_symbol: 1, direction: right}"
    );
    assert!(ins.is_matching(&String::from("A"), '0'));
    assert!(!ins.is_matching(&String::from("A"), '1'));
    assert!(!ins.is_matching(&String::from("B"), '0'));
}
