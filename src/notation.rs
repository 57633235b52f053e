use vstd::prelude::*;

use crate::outcome::{Event, Outcome};

verus! {

/// Why a delivery string was rejected before any outcome was built.
#[derive(Clone, Copy, Debug, PartialEq, Eq, Structural)]
pub enum ParseError {
    /// The string holds no characters.
    EmptyInput,
    /// The first character, scanning from the left, outside the notation's alphabet.
    InvalidCharacter(char),
    /// A bye or leg-bye that does not start with its run count.
    MissingByeCount,
    /// Both a four and a six, or both a bye and a leg-bye.
    ConflictingModifiers,
}

pub open spec fn is_digit(c: char) -> bool {
    '0' <= c && c <= '9'
}

/// The letters that name an event.
pub open spec fn is_event_letter(c: char) -> bool {
    c == 'W' || c == 'X' || c == 'O' || c == 'B' || c == 'L' || c == 'F' || c == 'S'
}

/// The notation's alphabet: a dot, the ten digits and the event letters.
pub open spec fn is_allowed_char(c: char) -> bool {
    c == '.' || is_digit(c) || is_event_letter(c)
}

/// `i` is the position of the leftmost character outside the alphabet.
pub open spec fn is_first_invalid(s: Seq<char>, i: int) -> bool {
    &&& 0 <= i < s.len()
    &&& !is_allowed_char(s[i])
    &&& forall|j: int| 0 <= j < i ==> is_allowed_char(#[trigger] s[j])
}

/// `i` is the position of the leftmost digit.
pub open spec fn is_first_digit(s: Seq<char>, i: int) -> bool {
    &&& 0 <= i < s.len()
    &&& is_digit(s[i])
    &&& forall|j: int| 0 <= j < i ==> !is_digit(#[trigger] s[j])
}

pub open spec fn digit_value(c: char) -> nat {
    (c as nat - '0' as nat) as nat
}

/// The event kept for a delivery string: the first letter present in the order
/// W, X, O, L, B, F, S decides it, and the other letters are not kept.
pub open spec fn event_of(s: Seq<char>) -> Option<Event> {
    if s.contains('W') {
        Some(Event::Wicket)
    } else if s.contains('X') {
        Some(Event::Wide)
    } else if s.contains('O') {
        Some(Event::NoBall)
    } else if s.contains('L') {
        Some(Event::LegBye)
    } else if s.contains('B') {
        Some(Event::Bye)
    } else if s.contains('F') {
        Some(Event::Four)
    } else if s.contains('S') {
        Some(Event::Six)
    } else {
        None
    }
}

/// The run count of a delivery string: none after a leading dot, else the value
/// of the leftmost digit, else none.
pub open spec fn runs_of(s: Seq<char>) -> nat {
    if s.len() > 0 && s[0] == '.' {
        0
    } else if exists|i: int| is_first_digit(s, i) {
        digit_value(s[choose|i: int| is_first_digit(s, i)])
    } else {
        0
    }
}

/// What reading a delivery string gives.
pub open spec fn parse_spec(s: Seq<char>) -> Result<Outcome, ParseError> {
    if s.len() == 0 {
        Err(ParseError::EmptyInput)
    } else if exists|i: int| is_first_invalid(s, i) {
        Err(ParseError::InvalidCharacter(s[choose|i: int| is_first_invalid(s, i)]))
    } else if (s.contains('B') || s.contains('L')) && !(is_digit(s[0]) || s[0] == '.') {
        Err(ParseError::MissingByeCount)
    } else if (s.contains('F') && s.contains('S')) || (s.contains('B') && s.contains('L')) {
        Err(ParseError::ConflictingModifiers)
    } else {
        Ok(Outcome { runs: runs_of(s) as u32, event: event_of(s) })
    }
}

fn is_allowed(c: char) -> (r: bool)
    ensures
        r == is_allowed_char(c),
{
    c == '.' || ('0' <= c && c <= '9') || c == 'W' || c == 'X' || c == 'O' || c == 'B' || c == 'L'
        || c == 'F' || c == 'S'
}

fn contains_char(v: &Vec<char>, c: char) -> (r: bool)
    ensures
        r == v@.contains(c),
{
    let mut i: usize = 0;
    while i < v.len()
        invariant
            i <= v@.len(),
            forall|j: int| 0 <= j < i ==> v@[j] != c,
        decreases v@.len() - i,
    {
        if v[i] == c {
            return true;
        }
        i = i + 1;
    }
    false
}

fn chars_of(s: &str) -> (r: Vec<char>)
    ensures
        r@ == s@,
{
    let n = s.unicode_len();
    let mut v: Vec<char> = Vec::new();
    let mut i: usize = 0;
    while i < n
        invariant
            n == s@.len(),
            i <= n,
            v@ == s@.subrange(0, i as int),
        decreases n - i,
    {
        v.push(s.get_char(i));
        i = i + 1;
    }
    assert(v@ =~= s@);
    v
}

fn event_in(v: &Vec<char>) -> (r: Option<Event>)
    ensures
        r == event_of(v@),
{
    if contains_char(v, 'W') {
        Some(Event::Wicket)
    } else if contains_char(v, 'X') {
        Some(Event::Wide)
    } else if contains_char(v, 'O') {
        Some(Event::NoBall)
    } else if contains_char(v, 'L') {
        Some(Event::LegBye)
    } else if contains_char(v, 'B') {
        Some(Event::Bye)
    } else if contains_char(v, 'F') {
        Some(Event::Four)
    } else if contains_char(v, 'S') {
        Some(Event::Six)
    } else {
        None
    }
}

fn runs_in(v: &Vec<char>) -> (r: u32)
    ensures
        r as nat == runs_of(v@),
{
    if v.len() > 0 && v[0] == '.' {
        return 0;
    }
    let mut i: usize = 0;
    while i < v.len()
        invariant
            i <= v@.len(),
            v@.len() > 0 ==> v@[0] != '.',
            forall|j: int| 0 <= j < i ==> !is_digit(#[trigger] v@[j]),
        decreases v@.len() - i,
    {
        let c = v[i];
        if '0' <= c && c <= '9' {
            assert(is_first_digit(v@, i as int));
            proof {
                let k = choose|k: int| is_first_digit(v@, k);
                if k < i {
                    assert(!is_digit(v@[k]));
                } else if k > i {
                    assert(!is_digit(v@[i as int]));
                }
                assert(k == i);
            }
            return (c as u32) - ('0' as u32);
        }
        i = i + 1;
    }
    assert(!exists|k: int| is_first_digit(v@, k));
    0
}

/// Reads one delivery string.
///
/// The checks run in this order: an empty string, then the leftmost character
/// outside the alphabet, then a bye or leg-bye whose string starts with neither
/// a digit nor a dot, then a four with a six or a bye with a leg-bye.
pub fn parse(ball: &str) -> (r: Result<Outcome, ParseError>)
    ensures
        r == parse_spec(ball@),
{
    let v = chars_of(ball);
    if v.len() == 0 {
        return Err(ParseError::EmptyInput);
    }
    let mut i: usize = 0;
    while i < v.len()
        invariant
            v@ == ball@,
            i <= v@.len(),
            forall|j: int| 0 <= j < i ==> is_allowed_char(#[trigger] v@[j]),
        decreases v@.len() - i,
    {
        let c = v[i];
        if !is_allowed(c) {
            assert(is_first_invalid(v@, i as int));
            proof {
                let k = choose|k: int| is_first_invalid(v@, k);
                if k < i {
                    assert(is_allowed_char(v@[k]));
                } else if k > i {
                    assert(is_allowed_char(v@[i as int]));
                }
            }
            return Err(ParseError::InvalidCharacter(c));
        }
        i = i + 1;
    }
    assert(!exists|k: int| is_first_invalid(v@, k));
    let has_b = contains_char(&v, 'B');
    let has_l = contains_char(&v, 'L');
    let first = v[0];
    if (has_b || has_l) && !(('0' <= first && first <= '9') || first == '.') {
        return Err(ParseError::MissingByeCount);
    }
    let has_f = contains_char(&v, 'F');
    let has_s = contains_char(&v, 'S');
    if (has_f && has_s) || (has_b && has_l) {
        return Err(ParseError::ConflictingModifiers);
    }
    let runs = runs_in(&v);
    let event = event_in(&v);
    Ok(Outcome { runs, event })
}

} // verus!
