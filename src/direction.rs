use vstd::prelude::*;

verus! {

/// How the head moves after a transition has been applied.
#[derive(Clone, Copy, Debug, PartialEq, Eq, Structural)]
pub enum Direction {
    Lhs,
    Rhs,
    Stay,
}

/// The movement named by a configuration token, if the token is one of the
/// three recognised words.
pub open spec fn dir_of(token: Seq<char>) -> Option<Direction> {
    if token =~= seq!['l', 'e', 'f', 't'] {
        Some(Direction::Lhs)
    } else if token =~= seq!['r', 'i', 'g', 'h', 't'] {
        Some(Direction::Rhs)
    } else if token =~= seq!['s', 't', 'a', 'y'] {
        Some(Direction::Stay)
    } else {
        None
    }
}

/// The word that names a movement in a configuration.
pub open spec fn dir_name(dir: Direction) -> Seq<char> {
    match dir {
        Direction::Lhs => seq!['l', 'e', 'f', 't'],
        Direction::Rhs => seq!['r', 'i', 'g', 'h', 't'],
        Direction::Stay => seq!['s', 't', 'a', 'y'],
    }
}

/// Where the head stands after moving from `head` in direction `dir`.
pub open spec fn moved(head: int, dir: Direction) -> int {
    match dir {
        Direction::Lhs => head - 1,
        Direction::Rhs => head + 1,
        Direction::Stay => head,
    }
}

/// The characters of `s`, in order.
pub fn chars_of(s: &str) -> (v: Vec<char>)
    ensures
        v@ == s@,
{
    let n = s.unicode_len();
    let mut v: Vec<char> = Vec::new();
    let mut i: usize = 0;
    while i < n
        invariant
            n == s@.len(),
            i <= n,
            v@ == s@.subrange(0, i as int),
        decreases n - i,
    {
        v.push(s.get_char(i));
        i = i + 1;
        assert(v@ =~= s@.subrange(0, i as int));
    }
    assert(v@ =~= s@);
    v
}

/// Tells whether the characters of `v` spell the word `w`.
fn spells(v: &Vec<char>, w: &[char]) -> (r: bool)
    ensures
        r == (v@ == w@),
{
    if v.len() != w.len() {
        assert(v@.len() != w@.len());
        return false;
    }
    let mut i: usize = 0;
    while i < v.len()
        invariant
            v@.len() == w@.len(),
            i <= v@.len(),
            forall|j: int| 0 <= j < i ==> v@[j] == w@[j],
        decreases v.len() - i,
    {
        if v[i] != w[i] {
            return false;
        }
        i = i + 1;
    }
    assert(v@ =~= w@);
    true
}

/// The movement named by the characters of a token.
pub fn dir_from_chars(token: &Vec<char>) -> (r: Option<Direction>)
    ensures
        r == dir_of(token@),
{
    let left = ['l', 'e', 'f', 't'];
    let right = ['r', 'i', 'g', 'h', 't'];
    let stay = ['s', 't', 'a', 'y'];
    if spells(token, left.as_slice()) {
        assert(left@ =~= seq!['l', 'e', 'f', 't']);
        Some(Direction::Lhs)
    } else if spells(token, right.as_slice()) {
        assert(right@ =~= seq!['r', 'i', 'g', 'h', 't']);
        Some(Direction::Rhs)
    } else if spells(token, stay.as_slice()) {
        assert(stay@ =~= seq!['s', 't', 'a', 'y']);
        Some(Direction::Stay)
    } else {
        assert(left@ =~= seq!['l', 'e', 'f', 't']);
        assert(right@ =~= seq!['r', 'i', 'g', 'h', 't']);
        assert(stay@ =~= seq!['s', 't', 'a', 'y']);
        None
    }
}

impl Direction {
    /// Reads a movement token: `left`, `right` or `stay`.
    pub fn str2dir(strdir: &str) -> (r: Result<Direction, crate::config::ConfigError>)
        ensures
            match dir_of(strdir@) {
                Some(d) => r == Ok::<Direction, crate::config::ConfigError>(d),
                None => r == Err::<Direction, crate::config::ConfigError>(
                    crate::config::ConfigError::InvalidDirection,
                ),
            },
    {
        let token = chars_of(strdir);
        match dir_from_chars(&token) {
            Some(d) => Ok(d),
            None => Err(crate::config::ConfigError::InvalidDirection),
        }
    }

    /// The token that names a movement.
    pub fn dir2str(dir: &Direction) -> (s: String)
        ensures
            s@ == dir_name(*dir),
    {
        match dir {
            Direction::Lhs => {
                proof {
                    reveal_strlit("left");
                }
                String::from_str("left")
            },
            Direction::Rhs => {
                proof {
                    reveal_strlit("right");
                }
                String::from_str("right")
            },
            Direction::Stay => {
                proof {
                    reveal_strlit("stay");
                }
                String::from_str("stay")
            },
        }
    }
}

} // verus!
