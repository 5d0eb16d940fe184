use vstd::prelude::*;
use crate::config::{
    ConfigError,
    apply_line,
    fields_of,
    is_comment,
    lemma_refusal_stays,
    lines_of,
    load,
    load_lines,
    string_of,
};
use crate::direction::{Direction, chars_of, dir_from_chars, dir_name, moved};

verus! {

/// Why a step could not be taken.
#[derive(Clone, Copy, Debug, PartialEq, Eq, Structural)]
pub enum StepError {
    /// No rule matches the current state and the symbol under the head.
    NoMatchingRule,
    /// The head is off the tape, or the matching rule would move it off.
    HeadOutOfBounds,
}

/// A transition rule as a mathematical value.
pub struct Rule {
    pub current_state: Seq<char>,
    pub current_symbol: char,
    pub new_state: Seq<char>,
    pub new_symbol: char,
    pub direction: Direction,
}

/// The whole state of a machine as a mathematical value.
pub struct MachineModel {
    pub state: Seq<char>,
    pub halt_state: Seq<char>,
    pub tape: Seq<char>,
    pub head: int,
    pub rules: Seq<Rule>,
}

/// Whether `rule` applies in `state` with `symbol` under the head.
pub open spec fn rule_matches(rule: Rule, state: Seq<char>, symbol: char) -> bool {
    rule.current_state == state && rule.current_symbol == symbol
}

/// Whether `i` is the first rule in table order that applies.
pub open spec fn is_first_match(rules: Seq<Rule>, state: Seq<char>, symbol: char, i: int) -> bool {
    &&& 0 <= i < rules.len()
    &&& rule_matches(rules[i], state, symbol)
    &&& forall|j: int| 0 <= j < i ==> !rule_matches(#[trigger] rules[j], state, symbol)
}

/// The index of the first rule in table order that applies, if any does.
pub open spec fn first_match(rules: Seq<Rule>, state: Seq<char>, symbol: char) -> Option<int> {
    if exists|i: int| is_first_match(rules, state, symbol, i) {
        Some(choose|i: int| is_first_match(rules, state, symbol, i))
    } else {
        None
    }
}

impl MachineModel {
    /// A machine with no state names, an empty tape, the head at 0 and no rules.
    pub open spec fn empty() -> MachineModel {
        MachineModel {
            state: Seq::empty(),
            halt_state: Seq::empty(),
            tape: Seq::empty(),
            head: 0,
            rules: Seq::empty(),
        }
    }

    pub open spec fn is_halted(self) -> bool {
        self.state == self.halt_state
    }

    pub open spec fn head_on_tape(self) -> bool {
        0 <= self.head < self.tape.len()
    }

    /// The symbol under the head.
    pub open spec fn scanned(self) -> char {
        self.tape[self.head]
    }

    /// The machine after `rule` is applied: the symbol under the head is
    /// overwritten, the state replaced and the head moved.
    pub open spec fn apply(self, rule: Rule) -> MachineModel {
        MachineModel {
            state: rule.new_state,
            tape: self.tape.update(self.head, rule.new_symbol),
            head: moved(self.head, rule.direction),
            ..self
        }
    }

    /// The outcome of one step: the next machine, or why there is none.
    pub open spec fn next(self) -> Result<MachineModel, StepError> {
        if !self.head_on_tape() {
            Err(StepError::HeadOutOfBounds)
        } else {
            match first_match(self.rules, self.state, self.scanned()) {
                None => Err(StepError::NoMatchingRule),
                Some(i) => {
                    let after = self.apply(self.rules[i]);
                    if after.head_on_tape() {
                        Ok(after)
                    } else {
                        Err(StepError::HeadOutOfBounds)
                    }
                },
            }
        }
    }

    /// The outcome of `n` steps, stopping at the first that fails.
    pub open spec fn run(self, n: nat) -> Result<MachineModel, StepError>
        decreases n,
    {
        if n == 0 {
            Ok(self)
        } else {
            match self.next() {
                Ok(m) => m.run((n - 1) as nat),
                Err(e) => Err(e),
            }
        }
    }
}

/// How a rule reads when it is shown to a person.
pub open spec fn description(r: Rule) -> Seq<char> {
    "instruction {current_state: "@ + r.current_state + ", current_symbol: "@ + seq![r.current_symbol]
        + ", new_state: "@ + r.new_state + ", new_symbol: "@ + seq![r.new_symbol] + ", direction: "@
        + dir_name(r.direction) + "}"@
}

/// Relies on char's ToString: a string of that one character.
#[verifier::external_body]
fn char_string(c: char) -> (s: String)
    ensures
        s@ == seq![c],
{
    c.to_string()
}

/// One production of the transition function. Its fields are fixed when it
/// is built.
pub struct Instruction {
    current_state: String,
    current_symbol: char,
    new_state: String,
    new_symbol: char,
    direction: Direction,
}

impl View for Instruction {
    type V = Rule;

    closed spec fn view(&self) -> Rule {
        Rule {
            current_state: self.current_state@,
            current_symbol: self.current_symbol,
            new_state: self.new_state@,
            new_symbol: self.new_symbol,
            direction: self.direction,
        }
    }
}

impl Instruction {
    pub fn new(
        current_state: String,
        current_symbol: char,
        new_state: String,
        new_symbol: char,
        direction: Direction,
    ) -> (r: Instruction)
        ensures
            r@ == (Rule {
                current_state: current_state@,
                current_symbol,
                new_state: new_state@,
                new_symbol,
                direction,
            }),
    {
        Instruction { current_state, current_symbol, new_state, new_symbol, direction }
    }

    /// The rule in words, each field named.
    pub fn describe(&self) -> (s: String)
        ensures
            s@ == description(self@),
    {
        let mut s = String::from_str("instruction {current_state: ");
        s.append(self.current_state.as_str());
        s.append(", current_symbol: ");
        s.append(char_string(self.current_symbol).as_str());
        s.append(", new_state: ");
        s.append(self.new_state.as_str());
        s.append(", new_symbol: ");
        s.append(char_string(self.new_symbol).as_str());
        s.append(", direction: ");
        s.append(Direction::dir2str(&self.direction).as_str());
        s.append("}");
        s
    }

    pub fn is_matching(&self, state: &String, symbol: char) -> (r: bool)
        ensures
            r == rule_matches(self@, state@, symbol),
    {
        *state == self.current_state && symbol == self.current_symbol
    }
}

/// A single-tape machine: its state, its halting state, a fixed tape, the
/// head position and an ordered table of rules.
pub struct TuringMachine {
    state: String,
    halt_state: String,
    tape: Vec<char>,
    tape_cell: usize,
    instructions: Vec<Instruction>,
}

impl View for TuringMachine {
    type V = MachineModel;

    closed spec fn view(&self) -> MachineModel {
        MachineModel {
            state: self.state@,
            halt_state: self.halt_state@,
            tape: self.tape@,
            head: self.tape_cell as int,
            rules: self.instructions@.map_values(|ins: Instruction| ins@),
        }
    }
}

impl TuringMachine {
    pub fn new() -> (r: Self)
        ensures
            r@ == MachineModel::empty(),
    {
        let r = Self {
            state: String::new(),
            halt_state: String::new(),
            tape: Vec::new(),
            tape_cell: 0,
            instructions: Vec::new(),
        };
        assert(r@.rules =~= Seq::<Rule>::empty());
        r
    }

    pub fn get_state(&self) -> (r: &str)
        ensures
            r@ == self@.state,
    {
        self.state.as_str()
    }

    pub fn get_halt_state(&self) -> (r: &str)
        ensures
            r@ == self@.halt_state,
    {
        self.halt_state.as_str()
    }

    pub fn get_tape(&self) -> (r: &[char])
        ensures
            r@ == self@.tape,
    {
        self.tape.as_slice()
    }

    pub fn get_tape_cell(&self) -> (r: usize)
        ensures
            r as int == self@.head,
    {
        self.tape_cell
    }

    /// Applies one configuration line; a refused line changes nothing.
    fn load_line(&mut self, line: &Vec<char>) -> (r: Result<(), ConfigError>)
        ensures
            match apply_line(old(self)@, line@) {
                Ok(m) => r == Ok::<(), ConfigError>(()) && final(self)@ == m,
                Err(e) => r == Err::<(), ConfigError>(e) && final(self)@ == old(self)@,
            },
    {
        if line.len() > 0 && line[0] == '#' {
            return Ok(());
        }
        assert(!is_comment(line@));
        let mut f = fields_of(line);
        let ghost fs = f@.map_values(|v: Vec<char>| v@);
        assert(forall|k: int| 0 <= k < f@.len() ==> fs[k] == f@[k]@);
        let n = f.len();
        if n == 0 {
            Ok(())
        } else if n == 1 {
            self.halt_state = string_of(&f[0]);
            Ok(())
        } else if n == 2 {
            self.state = string_of(&f[0]);
            self.tape = f.pop().unwrap();
            Ok(())
        } else if n == 5 {
            match dir_from_chars(&f[4]) {
                Some(direction) => {
                    assert(f@[1]@.len() > 0 && f@[3]@.len() > 0);
                    let ins = Instruction::new(
                        string_of(&f[0]),
                        f[1][0],
                        string_of(&f[2]),
                        f[3][0],
                        direction,
                    );
                    let ghost rules = self@.rules;
                    self.instructions.push(ins);
                    assert(self@.rules =~= rules.push(ins@));
                    Ok(())
                },
                None => Err(ConfigError::InvalidDirection),
            }
        } else {
            Err(ConfigError::InvalidLine)
        }
    }

    /// Loads a configuration text, line by line: `#` starts a comment line,
    /// a line of one field names the halting state, one of two fields gives
    /// the current state and the tape, and one of five fields (state,
    /// symbol, new state, new symbol, `left`/`right`/`stay`) appends a rule.
    /// Loading stops at the first line refused; the lines before it stay
    /// applied.
    pub fn load_cfg(&mut self, cfg: &str) -> (r: Result<(), ConfigError>)
        ensures
            load(old(self)@, cfg@) == (final(self)@, match r {
                Ok(_) => None,
                Err(e) => Some(e),
            }),
    {
        let text = chars_of(cfg);
        let ls = lines_of(&text);
        let ghost all = ls@.map_values(|v: Vec<char>| v@);
        let mut k: usize = 0;
        assert(all.take(0) =~= Seq::<Seq<char>>::empty());
        while k < ls.len()
            invariant
                all == ls@.map_values(|v: Vec<char>| v@),
                all == crate::config::lines(cfg@),
                k <= ls@.len(),
                load_lines(old(self)@, all.take(k as int)) == (self@, None::<ConfigError>),
            decreases ls.len() - k,
        {
            assert(all.take(k + 1).drop_last() =~= all.take(k as int));
            assert(all.take(k + 1).last() == ls@[k as int]@);
            match self.load_line(&ls[k]) {
                Ok(()) => {},
                Err(e) => {
                    proof {
                        lemma_refusal_stays(old(self)@, all, k + 1);
                    }
                    return Err(e);
                },
            }
            k = k + 1;
        }
        assert(all.take(k as int) =~= all);
        Ok(())
    }

    /// Applies the first rule that matches the current state and the symbol
    /// under the head. When no rule matches, or the head is or would end up
    /// off the tape, the machine is left exactly as it was.
    pub fn step(&mut self) -> (r: Result<(), StepError>)
        ensures
            match old(self)@.next() {
                Ok(m) => r == Ok::<(), StepError>(()) && final(self)@ == m,
                Err(e) => r == Err::<(), StepError>(e) && final(self)@ == old(self)@,
            },
    {
        if self.tape_cell >= self.tape.len() {
            return Err(StepError::HeadOutOfBounds);
        }
        let symbol = self.tape[self.tape_cell];
        let ghost m = self@;
        let mut i: usize = 0;
        while i < self.instructions.len()
            invariant
                self@ == m,
                old(self)@ == m,
                m.head_on_tape(),
                symbol == m.scanned(),
                i <= self.instructions@.len(),
                forall|j: int| 0 <= j < i ==> !rule_matches(#[trigger] m.rules[j], m.state, symbol),
            decreases self.instructions.len() - i,
        {
            if self.instructions[i].is_matching(&self.state, symbol) {
                assert(is_first_match(m.rules, m.state, symbol, i as int));
                let ghost k = choose|k: int| is_first_match(m.rules, m.state, symbol, k);
                assert(k == i) by {
                    if k < i {
                        assert(!rule_matches(m.rules[k], m.state, symbol));
                    } else if k > i {
                        assert(!rule_matches(m.rules[i as int], m.state, symbol));
                    }
                }
                assert(first_match(m.rules, m.state, symbol) == Some(i as int));
                assert(m.rules[i as int] == self.instructions@[i as int]@);
                let ghost after = m.apply(m.rules[i as int]);
                assert(after.tape.len() == m.tape.len());
                assert(self.tape_cell < self.tape@.len());
                let direction = self.instructions[i].direction;
                let cell: usize = match direction {
                    Direction::Lhs => {
                        if self.tape_cell == 0 {
                            return Err(StepError::HeadOutOfBounds);
                        }
                        self.tape_cell - 1
                    },
                    Direction::Rhs => {
                        if self.tape_cell >= self.tape.len() - 1 {
                            return Err(StepError::HeadOutOfBounds);
                        }
                        self.tape_cell + 1
                    },
                    Direction::Stay => self.tape_cell,
                };
                let state = self.instructions[i].new_state.clone();
                let new_symbol = self.instructions[i].new_symbol;
                self.update(&state, new_symbol, cell);
                assert(self@.tape =~= after.tape);
                assert(self@.rules =~= m.rules);
                assert(self@ == after);
                return Ok(());
            }
            i = i + 1;
        }
        assert(!exists|k: int| is_first_match(m.rules, m.state, symbol, k));
        Err(StepError::NoMatchingRule)
    }

    pub fn is_halt(&self) -> (r: bool)
        ensures
            r == self@.is_halted(),
    {
        self.state == self.halt_state
    }

    /// Writes `new_symbol` under the head, enters `new_state` and puts the
    /// head on `cell`.
    fn update(&mut self, new_state: &String, new_symbol: char, cell: usize)
        requires
            old(self).tape_cell < old(self).tape@.len(),
        ensures
            final(self).state@ == new_state@,
            final(self).halt_state == old(self).halt_state,
            final(self).tape@ == old(self).tape@.update(old(self).tape_cell as int, new_symbol),
            final(self).tape_cell == cell,
            final(self).instructions == old(self).instructions,
    {
        self.state = new_state.clone();
        self.tape.set(self.tape_cell, new_symbol);
        self.tape_cell = cell;
    }

    /// Clears the state names, the tape and the rules, and puts the head at 0.
    pub fn reset(&mut self)
        ensures
            final(self)@ == MachineModel::empty(),
    {
        self.state = String::new();
        self.halt_state = String::new();
        self.tape.clear();
        self.tape_cell = 0;
        self.instructions.clear();
        assert(self@.rules =~= Seq::<Rule>::empty());
        assert(self@.tape =~= Seq::<char>::empty());
    }
}

} // verus!
