use vstd::prelude::*;

use crate::outcome::{Event, Outcome};

verus! {

/// The decimal digit for `d`, which is below ten.
pub open spec fn digit_char(d: nat) -> char {
    if d == 0 {
        '0'
    } else if d == 1 {
        '1'
    } else if d == 2 {
        '2'
    } else if d == 3 {
        '3'
    } else if d == 4 {
        '4'
    } else if d == 5 {
        '5'
    } else if d == 6 {
        '6'
    } else if d == 7 {
        '7'
    } else if d == 8 {
        '8'
    } else {
        '9'
    }
}

/// `n` written in decimal, without leading zeros.
pub open spec fn decimal(n: nat) -> Seq<char>
    decreases n,
{
    if n < 10 {
        seq![digit_char(n)]
    } else {
        decimal(n / 10) + seq![digit_char(n % 10)]
    }
}

/// The notation letter of an event.
pub open spec fn event_letter(e: Event) -> char {
    match e {
        Event::Wicket => 'W',
        Event::Wide => 'X',
        Event::NoBall => 'O',
        Event::Bye => 'B',
        Event::LegBye => 'L',
        Event::Four => 'F',
        Event::Six => 'S',
    }
}

/// One delivery in notation: a dot for a delivery with nothing to record,
/// else the runs (when there are any) and the event's letter.
pub open spec fn outcome_text(o: Outcome) -> Seq<char> {
    match o.event {
        None => if o.runs == 0 {
            seq!['.']
        } else {
            decimal(o.runs as nat)
        },
        Some(e) => if o.runs == 0 {
            seq![event_letter(e)]
        } else {
            decimal(o.runs as nat).push(event_letter(e))
        },
    }
}

/// The deliveries of a log in notation, each after a space.
pub open spec fn log_text(log: Seq<Outcome>) -> Seq<char>
    decreases log.len(),
{
    if log.len() == 0 {
        Seq::empty()
    } else {
        log_text(log.drop_last()) + seq![' '] + outcome_text(log.last())
    }
}

fn digit_str(d: u64) -> (r: &'static str)
    requires
        d < 10,
    ensures
        r@ == seq![digit_char(d as nat)],
{
    proof {
        reveal_strlit("0");
        reveal_strlit("1");
        reveal_strlit("2");
        reveal_strlit("3");
        reveal_strlit("4");
        reveal_strlit("5");
        reveal_strlit("6");
        reveal_strlit("7");
        reveal_strlit("8");
        reveal_strlit("9");
    }
    let r = if d == 0 {
        "0"
    } else if d == 1 {
        "1"
    } else if d == 2 {
        "2"
    } else if d == 3 {
        "3"
    } else if d == 4 {
        "4"
    } else if d == 5 {
        "5"
    } else if d == 6 {
        "6"
    } else if d == 7 {
        "7"
    } else if d == 8 {
        "8"
    } else {
        "9"
    };
    assert(r@ =~= seq![digit_char(d as nat)]);
    r
}

fn letter_str(e: Event) -> (r: &'static str)
    ensures
        r@ == seq![event_letter(e)],
{
    proof {
        reveal_strlit("W");
        reveal_strlit("X");
        reveal_strlit("O");
        reveal_strlit("B");
        reveal_strlit("L");
        reveal_strlit("F");
        reveal_strlit("S");
    }
    let r = match e {
        Event::Wicket => "W",
        Event::Wide => "X",
        Event::NoBall => "O",
        Event::Bye => "B",
        Event::LegBye => "L",
        Event::Four => "F",
        Event::Six => "S",
    };
    assert(r@ =~= seq![event_letter(e)]);
    r
}

/// Appends `n` in decimal.
pub fn push_decimal(out: &mut String, n: u64)
    ensures
        final(out)@ == old(out)@ + decimal(n as nat),
    decreases n,
{
    if n >= 10 {
        push_decimal(out, n / 10);
        out.append(digit_str(n % 10));
        assert(final(out)@ =~= old(out)@ + decimal(n as nat));
    } else {
        out.append(digit_str(n));
    }
}

/// Appends one delivery in notation.
pub fn push_outcome(out: &mut String, o: &Outcome)
    ensures
        final(out)@ == old(out)@ + outcome_text(*o),
{
    proof {
        reveal_strlit(".");
    }
    match o.event {
        None => {
            if o.runs == 0 {
                out.append(".");
            } else {
                push_decimal(out, o.runs as u64);
            }
        },
        Some(e) => {
            if o.runs != 0 {
                push_decimal(out, o.runs as u64);
            }
            out.append(letter_str(e));
        },
    }
    assert(final(out)@ =~= old(out)@ + outcome_text(*o));
}

/// Appends the deliveries of a log, each after a space.
pub fn push_log(out: &mut String, log: &Vec<Outcome>)
    ensures
        final(out)@ == old(out)@ + log_text(log@),
{
    let ghost start = out@;
    let mut i: usize = 0;
    while i < log.len()
        invariant
            i <= log@.len(),
            out@ == start + log_text(log@.subrange(0, i as int)),
        decreases log@.len() - i,
    {
        out.append(" ");
        push_outcome(out, &log[i]);
        proof {
            let next = log@.subrange(0, i + 1);
            assert(next.drop_last() =~= log@.subrange(0, i as int));
            assert(next.last() == log@[i as int]);
            reveal_strlit(" ");
            assert(" "@ =~= seq![' ']);
            assert(log_text(next) == log_text(log@.subrange(0, i as int)) + seq![' ']
                + outcome_text(log@[i as int]));
            assert(out@ =~= start + log_text(next));
        }
        i = i + 1;
    }
    assert(log@.subrange(0, log@.len() as int) =~= log@);
}

} // verus!
