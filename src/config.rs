use vstd::prelude::*;
use crate::direction::dir_of;
use crate::machine::{MachineModel, Rule};

verus! {

/// Why a configuration was refused.
#[derive(Clone, Copy, Debug, PartialEq, Eq, Structural)]
pub enum ConfigError {
    /// A line has neither one, two nor five fields.
    InvalidLine,
    /// A rule names a movement other than `left`, `right` or `stay`.
    InvalidDirection,
}

/// The characters with Unicode's White_Space property.
pub open spec fn is_white_space(c: char) -> bool {
    let u = c as u32;
    ||| 0x9 <= u <= 0xd
    ||| u == 0x20
    ||| u == 0x85
    ||| u == 0xa0
    ||| u == 0x1680
    ||| 0x2000 <= u <= 0x200a
    ||| u == 0x2028
    ||| u == 0x2029
    ||| u == 0x202f
    ||| u == 0x205f
    ||| u == 0x3000
}

/// Relies on char::is_whitespace: true exactly for the characters with the
/// Unicode White_Space property.
#[verifier::external_body]
fn is_space(c: char) -> (r: bool)
    ensures
        r == is_white_space(c),
{
    c.is_whitespace()
}

/// Relies on String's FromIterator over chars: the string holds the given
/// characters, in order.
#[verifier::external_body]
pub(crate) fn string_of(v: &Vec<char>) -> (s: String)
    ensures
        s@ == v@,
{
    v.iter().collect()
}

/// After reading `s`: the fields completed so far and the field being read.
/// Fields are the nonempty runs of characters between white space.
pub open spec fn fields_acc(s: Seq<char>) -> (Seq<Seq<char>>, Seq<char>)
    decreases s.len(),
{
    if s.len() == 0 {
        (Seq::empty(), Seq::empty())
    } else {
        let (done, cur) = fields_acc(s.drop_last());
        if is_white_space(s.last()) {
            if cur.len() > 0 {
                (done.push(cur), Seq::empty())
            } else {
                (done, cur)
            }
        } else {
            (done, cur.push(s.last()))
        }
    }
}

/// The white-space separated fields of `s`, in order.
pub open spec fn fields(s: Seq<char>) -> Seq<Seq<char>> {
    let (done, cur) = fields_acc(s);
    if cur.len() > 0 {
        done.push(cur)
    } else {
        done
    }
}

/// After reading `s`: the lines completed so far and the line being read.
pub open spec fn lines_acc(s: Seq<char>) -> (Seq<Seq<char>>, Seq<char>)
    decreases s.len(),
{
    if s.len() == 0 {
        (Seq::empty(), Seq::empty())
    } else {
        let (done, cur) = lines_acc(s.drop_last());
        if s.last() == '\n' {
            (done.push(cur), Seq::empty())
        } else {
            (done, cur.push(s.last()))
        }
    }
}

/// The pieces of `s` between line feeds, in order.
pub open spec fn lines(s: Seq<char>) -> Seq<Seq<char>> {
    let (done, cur) = lines_acc(s);
    done.push(cur)
}

pub open spec fn is_comment(line: Seq<char>) -> bool {
    line.len() > 0 && line[0] == '#'
}

/// The effect of one configuration line. A comment or a blank line changes
/// nothing; one field names the halting state; two give the current state
/// and the tape; five give a rule, appended to the table.
pub open spec fn apply_line(m: MachineModel, line: Seq<char>) -> Result<MachineModel, ConfigError> {
    let f = fields(line);
    if is_comment(line) || f.len() == 0 {
        Ok(m)
    } else if f.len() == 1 {
        Ok(MachineModel { halt_state: f[0], ..m })
    } else if f.len() == 2 {
        Ok(MachineModel { state: f[0], tape: f[1], ..m })
    } else if f.len() == 5 {
        match dir_of(f[4]) {
            Some(d) => Ok(
                MachineModel {
                    rules: m.rules.push(
                        Rule {
                            current_state: f[0],
                            current_symbol: f[1][0],
                            new_state: f[2],
                            new_symbol: f[3][0],
                            direction: d,
                        },
                    ),
                    ..m
                },
            ),
            None => Err(ConfigError::InvalidDirection),
        }
    } else {
        Err(ConfigError::InvalidLine)
    }
}

/// The machine after the lines `ls` are applied in order, and the error of
/// the first line refused, if any. The lines before that one stay applied.
pub open spec fn load_lines(m: MachineModel, ls: Seq<Seq<char>>) -> (MachineModel, Option<ConfigError>)
    decreases ls.len(),
{
    if ls.len() == 0 {
        (m, None)
    } else {
        let (m1, e) = load_lines(m, ls.drop_last());
        match e {
            Some(_) => (m1, e),
            None => match apply_line(m1, ls.last()) {
                Ok(m2) => (m2, None),
                Err(err) => (m1, Some(err)),
            },
        }
    }
}

/// The machine after the configuration text `cfg` is loaded into `m`.
pub open spec fn load(m: MachineModel, cfg: Seq<char>) -> (MachineModel, Option<ConfigError>) {
    load_lines(m, lines(cfg))
}

/// Once a line is refused, the lines after it change nothing.
pub(crate) proof fn lemma_refusal_stays(m: MachineModel, ls: Seq<Seq<char>>, k: int)
    requires
        0 <= k <= ls.len(),
        load_lines(m, ls.take(k)).1 is Some,
    ensures
        load_lines(m, ls) == load_lines(m, ls.take(k)),
    decreases ls.len() - k,
{
    if k < ls.len() {
        assert(ls.take(k + 1).drop_last() =~= ls.take(k));
        lemma_refusal_stays(m, ls, k + 1);
    } else {
        assert(ls.take(k) =~= ls);
    }
}

/// The white-space separated fields of `line`.
pub fn fields_of(line: &Vec<char>) -> (f: Vec<Vec<char>>)
    ensures
        f@.map_values(|v: Vec<char>| v@) == fields(line@),
        forall|k: int| 0 <= k < f@.len() ==> (#[trigger] f@[k])@.len() > 0,
{
    let mut done: Vec<Vec<char>> = Vec::new();
    let mut cur: Vec<char> = Vec::new();
    let mut i: usize = 0;
    assert(done@.map_values(|v: Vec<char>| v@) =~= Seq::<Seq<char>>::empty());
    assert(cur@ =~= Seq::<char>::empty());
    while i < line.len()
        invariant
            i <= line@.len(),
            (done@.map_values(|v: Vec<char>| v@), cur@) == fields_acc(line@.take(i as int)),
            forall|k: int| 0 <= k < done@.len() ==> (#[trigger] done@[k])@.len() > 0,
        decreases line.len() - i,
    {
        let c = line[i];
        assert(line@.take(i + 1).drop_last() =~= line@.take(i as int));
        assert(line@.take(i + 1).last() == c);
        let ghost before = done@.map_values(|v: Vec<char>| v@);
        if is_space(c) {
            if cur.len() > 0 {
                let ghost piece = cur@;
                done.push(cur);
                cur = Vec::new();
                assert(done@.map_values(|v: Vec<char>| v@) =~= before.push(piece));
                assert(cur@ =~= Seq::<char>::empty());
            }
        } else {
            cur.push(c);
        }
        i = i + 1;
    }
    assert(line@.take(i as int) =~= line@);
    if cur.len() > 0 {
        let ghost before = done@.map_values(|v: Vec<char>| v@);
        let ghost piece = cur@;
        done.push(cur);
        assert(done@.map_values(|v: Vec<char>| v@) =~= before.push(piece));
    }
    done
}

/// The pieces of `text` between line feeds.
pub fn lines_of(text: &Vec<char>) -> (ls: Vec<Vec<char>>)
    ensures
        ls@.map_values(|v: Vec<char>| v@) == lines(text@),
{
    let mut done: Vec<Vec<char>> = Vec::new();
    let mut cur: Vec<char> = Vec::new();
    let mut i: usize = 0;
    assert(done@.map_values(|v: Vec<char>| v@) =~= Seq::<Seq<char>>::empty());
    assert(cur@ =~= Seq::<char>::empty());
    while i < text.len()
        invariant
            i <= text@.len(),
            (done@.map_values(|v: Vec<char>| v@), cur@) == lines_acc(text@.take(i as int)),
        decreases text.len() - i,
    {
        let c = text[i];
        assert(text@.take(i + 1).drop_last() =~= text@.take(i as int));
        assert(text@.take(i + 1).last() == c);
        let ghost before = done@.map_values(|v: Vec<char>| v@);
        if c == '\n' {
            let ghost piece = cur@;
            done.push(cur);
            cur = Vec::new();
            assert(done@.map_values(|v: Vec<char>| v@) =~= before.push(piece));
            assert(cur@ =~= Seq::<char>::empty());
        } else {
            cur.push(c);
        }
        i = i + 1;
    }
    assert(text@.take(i as int) =~= text@);
    let ghost before = done@.map_values(|v: Vec<char>| v@);
    let ghost piece = cur@;
    done.push(cur);
    assert(done@.map_values(|v: Vec<char>| v@) =~= before.push(piece));
    done
}

} // verus!
