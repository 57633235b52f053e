use cricket_scoring::notation::{parse, ParseError};
use cricket_scoring::outcome::{limits_for, Event, Outcome, ValidationError};

fn ok(runs: u32, event: Option<Event>) -> Result<Outcome, ParseError> {
    Ok(Outcome::new(runs, event))
}

#[test]
fn empty_input_is_rejected() {
    assert_eq!(parse(""), Err(ParseError::EmptyInput));
}

#[test]
fn first_invalid_character_is_reported() {
    assert_eq!(parse("4Z"), Err(ParseError::InvalidCharacter('Z')));
    assert_eq!(parse("aZ"), Err(ParseError::InvalidCharacter('a')));
    assert_eq!(parse("W x y"), Err(ParseError::InvalidCharacter(' ')));
    assert_eq!(parse("N"), Err(ParseError::InvalidCharacter('N')));
    assert_eq!(parse("2é"), Err(ParseError::InvalidCharacter('é')));
    // an invalid character is reported before any other fault
    assert_eq!(parse("BLz"), Err(ParseError::InvalidCharacter('z')));
}

#[test]
fn dot_is_no_run() {
    assert_eq!(parse("."), ok(0, None));
}

#[test]
fn single_digit_is_runs() {
    assert_eq!(parse("4"), ok(4, None));
    assert_eq!(parse("0"), ok(0, None));
    assert_eq!(parse("9"), ok(9, None));
}

#[test]
fn wicket_beats_wide() {
    assert_eq!(parse("W"), ok(0, Some(Event::Wicket)));
    assert_eq!(parse("WX"), ok(0, Some(Event::Wicket)));
}

#[test]
fn wides_carry_their_runs() {
    assert_eq!(parse("1X"), ok(1, Some(Event::Wide)));
    assert_eq!(parse("4X"), ok(4, Some(Event::Wide)));
}

#[test]
fn byes_need_a_count() {
    assert_eq!(parse("4B"), ok(4, Some(Event::Bye)));
    assert_eq!(parse("B"), Err(ParseError::MissingByeCount));
    assert_eq!(parse("L"), Err(ParseError::MissingByeCount));
    assert_eq!(parse("W2L"), Err(ParseError::MissingByeCount));
    assert_eq!(parse(".B"), ok(0, Some(Event::Bye)));
    assert_eq!(parse("2L"), ok(2, Some(Event::LegBye)));
}

#[test]
fn four_with_six_conflicts() {
    assert_eq!(parse("4F4S"), Err(ParseError::ConflictingModifiers));
    assert_eq!(parse("FS"), Err(ParseError::ConflictingModifiers));
    assert_eq!(parse("1BL"), Err(ParseError::ConflictingModifiers));
    assert_eq!(parse("2LB"), Err(ParseError::ConflictingModifiers));
}

#[test]
fn priority_keeps_one_event() {
    assert_eq!(parse("WOF"), ok(0, Some(Event::Wicket)));
    assert_eq!(parse("XF"), ok(0, Some(Event::Wide)));
    assert_eq!(parse("1OB"), ok(1, Some(Event::NoBall)));
    assert_eq!(parse("4BF"), ok(4, Some(Event::Bye)));
    assert_eq!(parse("4F"), ok(4, Some(Event::Four)));
    assert_eq!(parse("6S"), ok(6, Some(Event::Six)));
}

#[test]
fn only_first_digit_counts() {
    assert_eq!(parse("12"), ok(1, None));
    assert_eq!(parse("W3"), ok(3, Some(Event::Wicket)));
    assert_eq!(parse(".4"), ok(0, None));
}

#[test]
fn validation_table() {
    assert_eq!(Outcome::new(4, Some(Event::Four)).validate(), Ok(()));
    assert_eq!(Outcome::new(0, Some(Event::Four)).validate(), Err(ValidationError::TooFewRuns));
    assert_eq!(Outcome::new(6, Some(Event::Six)).validate(), Ok(()));
    assert_eq!(Outcome::new(7, None).validate(), Err(ValidationError::TooManyRuns));
    assert_eq!(Outcome::new(0, Some(Event::Bye)).validate(), Err(ValidationError::TooFewRuns));
    assert_eq!(Outcome::new(6, Some(Event::Wide)).validate(), Err(ValidationError::TooManyRuns));
    assert_eq!(Outcome::new(0, Some(Event::Wicket)).validate(), Ok(()));
    assert_eq!(limits_for(Some(Event::LegBye)), (1, 4));
    assert_eq!(limits_for(None), (0, 6));
}

#[test]
fn illegal_deliveries() {
    assert!(Outcome::new(0, Some(Event::Wide)).is_illegal());
    assert!(Outcome::new(0, Some(Event::NoBall)).is_illegal());
    assert!(!Outcome::new(2, Some(Event::Bye)).is_illegal());
    assert!(Outcome::new(0, Some(Event::Wicket)).is_wicket());
    assert!(!Outcome::new(1, None).is_wicket());
}
