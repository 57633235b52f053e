use vstd::prelude::*;

use crate::innings::{
    end_over_spec, render_text, score_spec, state_wf, InningsState, BALLS_PER_OVER, MAX_WICKETS,
};
use crate::notation::{is_allowed_char, is_digit, is_first_invalid, parse_spec, ParseError};
use crate::outcome::{is_illegal_delivery, Event, Outcome};

verus! {

/// The state after the deliveries of `os`, in order.
pub open spec fn score_all(s: InningsState, os: Seq<Outcome>) -> InningsState
    decreases os.len(),
{
    if os.len() == 0 {
        s
    } else {
        score_spec(score_all(s, os.drop_last()), os.last())
    }
}

/// A string with a character outside the alphabet is rejected with the leftmost
/// such character.
pub proof fn lemma_first_offender(s: Seq<char>, i: int)
    requires
        is_first_invalid(s, i),
    ensures
        parse_spec(s) == Err::<Outcome, ParseError>(ParseError::InvalidCharacter(s[i])),
{
    let k = choose|k: int| is_first_invalid(s, k);
    if k < i {
        assert(is_allowed_char(s[k]));
    } else if k > i {
        assert(is_allowed_char(s[i]));
    }
}

/// A string over the alphabet whose bye or leg-bye, if any, starts with its
/// count, and that holds both a four and a six or both a bye and a leg-bye, is
/// rejected as conflicting.
pub proof fn lemma_conflicting_modifiers(s: Seq<char>)
    requires
        s.len() > 0,
        forall|j: int| 0 <= j < s.len() ==> is_allowed_char(#[trigger] s[j]),
        s.contains('B') || s.contains('L') ==> is_digit(s[0]) || s[0] == '.',
        (s.contains('F') && s.contains('S')) || (s.contains('B') && s.contains('L')),
    ensures
        parse_spec(s) == Err::<Outcome, ParseError>(ParseError::ConflictingModifiers),
{
    assert(!exists|k: int| is_first_invalid(s, k));
}

/// Every delivery keeps the innings invariant.
pub proof fn lemma_score_keeps_wf(s: InningsState, o: Outcome)
    requires
        state_wf(s),
    ensures
        state_wf(score_spec(s, o)),
{
}

/// Ending an over keeps the innings invariant.
pub proof fn lemma_end_over_keeps_wf(s: InningsState)
    requires
        state_wf(s),
    ensures
        state_wf(end_over_spec(s)),
{
}

/// Any run of deliveries keeps the innings invariant, and with it the cap of
/// ten wickets.
pub proof fn lemma_score_all_keeps_wf(s: InningsState, os: Seq<Outcome>)
    requires
        state_wf(s),
    ensures
        state_wf(score_all(s, os)),
        score_all(s, os).wickets <= MAX_WICKETS,
    decreases os.len(),
{
    if os.len() > 0 {
        lemma_score_all_keeps_wf(s, os.drop_last());
    }
}

/// A wide leaves the count of balls in the over as it was.
pub proof fn lemma_wide_keeps_balls(s: InningsState, o: Outcome)
    requires
        o.event == Some(Event::Wide),
    ensures
        score_spec(s, o).balls_in_over == s.balls_in_over,
{
}

proof fn lemma_legal_singles(s: InningsState, os: Seq<Outcome>)
    requires
        s.balls_in_over == 0,
        os.len() <= BALLS_PER_OVER,
        forall|k: int| 0 <= k < os.len() ==> #[trigger] os[k].runs == 1 && !is_illegal_delivery(
            os[k],
        ),
    ensures
        score_all(s, os).total_runs == s.total_runs + os.len(),
        score_all(s, os).balls_in_over == os.len(),
        score_all(s, os).completed_overs == s.completed_overs,
    decreases os.len(),
{
    if os.len() > 0 {
        let rest = os.drop_last();
        assert forall|k: int| 0 <= k < rest.len() implies #[trigger] rest[k].runs == 1
            && !is_illegal_delivery(rest[k]) by {
            assert(rest[k] == os[k]);
        }
        lemma_legal_singles(s, rest);
        assert(os.last() == os[os.len() - 1]);
    }
}

/// Six legal deliveries of one run each, from the start of an over, add six
/// runs and fill the over without ending it; ending it then starts the next over.
pub proof fn lemma_six_singles_fill_over(s: InningsState, os: Seq<Outcome>)
    requires
        s.balls_in_over == 0,
        os.len() == BALLS_PER_OVER,
        forall|k: int| 0 <= k < os.len() ==> #[trigger] os[k].runs == 1 && !is_illegal_delivery(
            os[k],
        ),
    ensures
        score_all(s, os).total_runs == s.total_runs + 6,
        score_all(s, os).balls_in_over == 6,
        score_all(s, os).completed_overs == s.completed_overs,
        end_over_spec(score_all(s, os)).balls_in_over == 0,
        end_over_spec(score_all(s, os)).completed_overs == s.completed_overs + 1,
{
    lemma_legal_singles(s, os);
}

/// From no wickets, a run of wicket deliveries counts each one up to ten and no
/// further.
pub proof fn lemma_wickets_capped(s: InningsState, os: Seq<Outcome>)
    requires
        s.wickets == 0,
        forall|k: int| 0 <= k < os.len() ==> (#[trigger] os[k]).event == Some(Event::Wicket),
    ensures
        score_all(s, os).wickets == if os.len() <= MAX_WICKETS {
            os.len()
        } else {
            MAX_WICKETS as nat
        },
    decreases os.len(),
{
    if os.len() > 0 {
        let rest = os.drop_last();
        assert forall|k: int| 0 <= k < rest.len() implies (#[trigger] rest[k]).event == Some(
            Event::Wicket,
        ) by {
            assert(rest[k] == os[k]);
        }
        lemma_wickets_capped(s, rest);
        assert(os.last() == os[os.len() - 1]);
    }
}

/// The snapshot text depends on the state alone, so two renders with no change
/// between them give the same text.
pub proof fn lemma_render_repeatable(a: InningsState, b: InningsState)
    requires
        a == b,
    ensures
        render_text(a) == render_text(b),
{
}

} // verus!
