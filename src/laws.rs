//! Properties of the machine, stated over its model and proved.

use vstd::prelude::*;
use crate::config::load;
use crate::direction::Direction;
use crate::machine::{MachineModel, StepError, first_match, is_first_match, rule_matches};

verus! {

/// A successful step writes the first matching rule's new symbol in the cell
/// that was under the head, enters the rule's new state, and moves the head
/// by exactly one cell to the left, one to the right, or not at all, as the
/// rule says. No other cell, the halting state and the rules are unchanged.
pub proof fn step_applies_first_match(m: MachineModel, i: int)
    requires
        m.head_on_tape(),
        is_first_match(m.rules, m.state, m.scanned(), i),
    ensures
        match m.next() {
            Ok(n) => {
                let r = m.rules[i];
                &&& n.tape.len() == m.tape.len()
                &&& n.tape[m.head] == r.new_symbol
                &&& forall|j: int| 0 <= j < m.tape.len() && j != m.head ==> n.tape[j] == m.tape[j]
                &&& n.state == r.new_state
                &&& n.head == match r.direction {
                    Direction::Lhs => m.head - 1,
                    Direction::Rhs => m.head + 1,
                    Direction::Stay => m.head,
                }
                &&& n.halt_state == m.halt_state
                &&& n.rules == m.rules
            },
            Err(e) => e == StepError::HeadOutOfBounds,
        },
{
    lemma_first_match_is(m, i);
}

/// The first match is unique: any index that is a first match is the one
/// that `first_match` picks.
proof fn lemma_first_match_is(m: MachineModel, i: int)
    requires
        is_first_match(m.rules, m.state, m.scanned(), i),
    ensures
        first_match(m.rules, m.state, m.scanned()) == Some(i),
{
    let k = choose|k: int| is_first_match(m.rules, m.state, m.scanned(), k);
    assert(k == i) by {
        if k < i {
            assert(!rule_matches(m.rules[k], m.state, m.scanned()));
        } else if k > i {
            assert(!rule_matches(m.rules[i], m.state, m.scanned()));
        }
    }
}

/// A halted machine stays halted as long as no step is taken, and no step
/// ever changes the halting state.
pub proof fn halting_is_stable(m: MachineModel)
    requires
        m.state == m.halt_state,
    ensures
        m.is_halted(),
        match m.next() {
            Ok(n) => n.halt_state == m.halt_state,
            Err(_) => true,
        },
{
}

/// Of two rules for the same state and symbol, the one earlier in the
/// table is applied: the later one never is.
pub proof fn earlier_rule_wins(m: MachineModel, i: int, j: int)
    requires
        m.head_on_tape(),
        0 <= i < j < m.rules.len(),
        rule_matches(m.rules[i], m.state, m.scanned()),
        m.rules[j].current_state == m.rules[i].current_state,
        m.rules[j].current_symbol == m.rules[i].current_symbol,
    ensures
        match first_match(m.rules, m.state, m.scanned()) {
            Some(k) => k <= i && m.next() == (if m.apply(m.rules[k]).head_on_tape() {
                Ok::<MachineModel, StepError>(m.apply(m.rules[k]))
            } else {
                Err::<MachineModel, StepError>(StepError::HeadOutOfBounds)
            }),
            None => false,
        },
{
    let s = m.scanned();
    let k = choose|k: int| 0 <= k <= i && is_first_match(m.rules, m.state, s, k);
    assert(exists|k: int| 0 <= k <= i && is_first_match(m.rules, m.state, s, k)) by {
        lemma_first_match_exists(m.rules, m.state, s, i);
    }
    lemma_first_match_is(m, k);
}

/// Where rule `i` matches, some rule at or before `i` is the first match.
proof fn lemma_first_match_exists(rules: Seq<crate::machine::Rule>, state: Seq<char>, symbol: char, i: int)
    requires
        0 <= i < rules.len(),
        rule_matches(rules[i], state, symbol),
    ensures
        exists|k: int| 0 <= k <= i && is_first_match(rules, state, symbol, k),
    decreases i,
{
    if exists|j: int| 0 <= j < i && rule_matches(#[trigger] rules[j], state, symbol) {
        let j = choose|j: int| 0 <= j < i && rule_matches(#[trigger] rules[j], state, symbol);
        lemma_first_match_exists(rules, state, symbol, j);
    } else {
        assert(is_first_match(rules, state, symbol, i));
    }
}

/// A machine whose head is on the leftmost cell, and whose first matching
/// rule moves left, fails with `HeadOutOfBounds`; a failed step changes
/// nothing (see `TuringMachine::step`).
pub proof fn left_off_the_tape_fails(m: MachineModel, i: int)
    requires
        m.head == 0,
        m.head_on_tape(),
        is_first_match(m.rules, m.state, m.scanned(), i),
        m.rules[i].direction == Direction::Lhs,
    ensures
        m.next() == Err::<MachineModel, StepError>(StepError::HeadOutOfBounds),
{
    lemma_first_match_is(m, i);
}

/// A machine that has not halted, and for which no rule matches its state
/// and the symbol under its head, is stuck: the step fails with
/// `NoMatchingRule`.
pub proof fn no_rule_means_stuck(m: MachineModel)
    requires
        m.head_on_tape(),
        !m.is_halted(),
        forall|i: int| 0 <= i < m.rules.len() ==> !rule_matches(#[trigger] m.rules[i], m.state, m.scanned()),
    ensures
        m.next() == Err::<MachineModel, StepError>(StepError::NoMatchingRule),
{
}

/// A reset machine and a new one are the same: loading one configuration
/// into each and running any number of steps gives the same results.
pub proof fn reset_leaves_no_trace(after_reset: MachineModel, fresh: MachineModel, cfg: Seq<char>, n: nat)
    requires
        after_reset == MachineModel::empty(),
        fresh == MachineModel::empty(),
    ensures
        load(after_reset, cfg) == load(fresh, cfg),
        load(after_reset, cfg).0.run(n) == load(fresh, cfg).0.run(n),
{
}

} // verus!
