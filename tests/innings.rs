use cricket_scoring::innings::{DeliveryError, Innings, Player, RosterError};
use cricket_scoring::notation::ParseError;
use cricket_scoring::outcome::{Event, Outcome, ValidationError};
use cricket_scoring::text::push_decimal;

fn side(n: usize) -> Vec<Player> {
    (0..n).map(|i| Player::new(((b'A' + i as u8) as char).to_string())).collect()
}

fn fresh() -> Innings {
    Innings::new(side(11), side(11)).unwrap()
}

#[test]
fn new_innings_starts_at_zero() {
    let inn = fresh();
    assert_eq!(inn.total_runs(), 0);
    assert_eq!(inn.wickets(), 0);
    assert_eq!(inn.completed_overs(), 0);
    assert_eq!(inn.balls_in_over(), 0);
    assert!(inn.ball_log().is_empty());
    assert_eq!(inn.batting().len(), 11);
    assert_eq!(inn.bowling()[10].name(), "K");
}

#[test]
fn roster_sizes_are_checked() {
    assert_eq!(Innings::new(side(10), side(11)).err(), Some(RosterError::BattingRosterSize));
    assert_eq!(Innings::new(side(11), side(12)).err(), Some(RosterError::BowlingRosterSize));
    assert_eq!(Innings::new(side(0), side(0)).err(), Some(RosterError::BattingRosterSize));
}

#[test]
fn six_singles_then_end_over() {
    let mut inn = fresh();
    for _ in 0..6 {
        inn.score_ball(&Outcome::new(1, None));
    }
    assert_eq!(inn.total_runs(), 6);
    assert_eq!(inn.balls_in_over(), 6);
    assert_eq!(inn.completed_overs(), 0);
    assert_eq!(inn.ball_log().len(), 6);
    inn.score_ball(&Outcome::new(1, None));
    assert_eq!(inn.balls_in_over(), 6);
    inn.end_over();
    assert_eq!(inn.balls_in_over(), 0);
    assert_eq!(inn.completed_overs(), 1);
    assert!(inn.ball_log().is_empty());
}

#[test]
fn wide_keeps_ball_count() {
    let mut inn = fresh();
    inn.score_ball(&Outcome::new(1, None));
    inn.score_ball(&Outcome::new(1, Some(Event::Wide)));
    assert_eq!(inn.balls_in_over(), 1);
    assert_eq!(inn.wides(), 1);
    inn.score_ball(&Outcome::new(0, Some(Event::NoBall)));
    assert_eq!(inn.balls_in_over(), 1);
    assert_eq!(inn.no_balls(), 1);
    assert_eq!(inn.total_runs(), 2);
}

#[test]
fn wickets_cap_at_ten() {
    let mut inn = fresh();
    for _ in 0..10 {
        inn.score_ball(&Outcome::new(0, Some(Event::Wicket)));
    }
    assert_eq!(inn.wickets(), 10);
    inn.score_ball(&Outcome::new(0, Some(Event::Wicket)));
    assert_eq!(inn.wickets(), 10);
}

#[test]
fn byes_are_extras_on_legal_balls() {
    let mut inn = fresh();
    inn.score_ball(&Outcome::new(4, Some(Event::Bye)));
    inn.score_ball(&Outcome::new(2, Some(Event::LegBye)));
    assert_eq!(inn.byes(), 4);
    assert_eq!(inn.leg_byes(), 2);
    assert_eq!(inn.total_runs(), 6);
    assert_eq!(inn.balls_in_over(), 2);
}

#[test]
fn render_fresh() {
    let inn = fresh();
    assert_eq!(
        inn.render(),
        "0/0 (0.0)\nextras: wides 0, no-balls 0, byes 0, leg-byes 0\nthis over:"
    );
}

#[test]
fn render_is_repeatable() {
    let mut inn = fresh();
    inn.record("4").unwrap();
    inn.record("W").unwrap();
    inn.record("1X").unwrap();
    inn.record("4B").unwrap();
    let first = inn.render();
    let second = inn.render();
    assert_eq!(first, second);
    assert_eq!(
        first,
        "9/1 (0.3)\nextras: wides 1, no-balls 0, byes 4, leg-byes 0\nthis over: 4 W 1X 4B"
    );
}

#[test]
fn record_rejects_without_change() {
    let mut inn = fresh();
    inn.record("2").unwrap();
    assert_eq!(inn.record(""), Err(DeliveryError::Parse(ParseError::EmptyInput)));
    assert_eq!(inn.record("B"), Err(DeliveryError::Parse(ParseError::MissingByeCount)));
    assert_eq!(inn.record("F"), Err(DeliveryError::Invalid(ValidationError::TooFewRuns)));
    assert_eq!(inn.record("9"), Err(DeliveryError::Invalid(ValidationError::TooManyRuns)));
    assert_eq!(inn.total_runs(), 2);
    assert_eq!(inn.balls_in_over(), 1);
    assert_eq!(inn.ball_log().len(), 1);
    assert_eq!(inn.record("WX"), Ok(Outcome::new(0, Some(Event::Wicket))));
    assert_eq!(inn.wickets(), 1);
    assert_eq!(inn.balls_in_over(), 2);
}

#[test]
fn decimal_text() {
    let mut s = String::from("n=");
    push_decimal(&mut s, 0);
    push_decimal(&mut s, 1207);
    push_decimal(&mut s, u64::MAX);
    assert_eq!(s, "n=0120718446744073709551615");
}

#[test]
fn player_keeps_name() {
    assert_eq!(Player::new(String::from("Grace")).name(), "Grace");
}
