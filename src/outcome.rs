use vstd::prelude::*;

verus! {

/// A fact about one delivery that the notation records beside its run count.
#[derive(Clone, Copy, Debug, PartialEq, Eq, Structural)]
pub enum Event {
    Wicket,
    Wide,
    NoBall,
    Bye,
    LegBye,
    Four,
    Six,
}

/// One delivery: the runs it produced and at most one event.
#[derive(Clone, Copy, Debug, PartialEq, Eq, Structural)]
pub struct Outcome {
    pub runs: u32,
    pub event: Option<Event>,
}

/// Why a well-formed outcome is not a legal delivery.
#[derive(Clone, Copy, Debug, PartialEq, Eq, Structural)]
pub enum ValidationError {
    /// Fewer runs than the event allows.
    TooFewRuns,
    /// More runs than the event allows.
    TooManyRuns,
}

/// The legality table: the least and the most runs that a delivery with the
/// given event may carry.
pub open spec fn run_limits(event: Option<Event>) -> (u32, u32) {
    match event {
        None => (0, 6),
        Some(Event::Wicket) => (0, 6),
        Some(Event::Wide) => (0, 5),
        Some(Event::NoBall) => (0, 6),
        Some(Event::Bye) => (1, 4),
        Some(Event::LegBye) => (1, 4),
        Some(Event::Four) => (4, 4),
        Some(Event::Six) => (6, 6),
    }
}

/// What checking an outcome against the legality table gives.
pub open spec fn validate_spec(o: Outcome) -> Result<(), ValidationError> {
    if o.runs < run_limits(o.event).0 {
        Err(ValidationError::TooFewRuns)
    } else if o.runs > run_limits(o.event).1 {
        Err(ValidationError::TooManyRuns)
    } else {
        Ok(())
    }
}

/// A wide or a no-ball: a delivery that does not count toward the over.
pub open spec fn is_illegal_delivery(o: Outcome) -> bool {
    o.event == Some(Event::Wide) || o.event == Some(Event::NoBall)
}

/// Looks up the legality table.
pub fn limits_for(event: Option<Event>) -> (r: (u32, u32))
    ensures
        r == run_limits(event),
{
    match event {
        None => (0, 6),
        Some(Event::Wicket) => (0, 6),
        Some(Event::Wide) => (0, 5),
        Some(Event::NoBall) => (0, 6),
        Some(Event::Bye) => (1, 4),
        Some(Event::LegBye) => (1, 4),
        Some(Event::Four) => (4, 4),
        Some(Event::Six) => (6, 6),
    }
}

impl Outcome {
    pub fn new(runs: u32, event: Option<Event>) -> (r: Outcome)
        ensures
            r.runs == runs,
            r.event == event,
    {
        Outcome { runs, event }
    }

    /// Checks the run count against the legality table for the event.
    pub fn validate(&self) -> (r: Result<(), ValidationError>)
        ensures
            r == validate_spec(*self),
    {
        let (least, most) = limits_for(self.event);
        if self.runs < least {
            Err(ValidationError::TooFewRuns)
        } else if self.runs > most {
            Err(ValidationError::TooManyRuns)
        } else {
            Ok(())
        }
    }

    /// Whether the delivery is a wide or a no-ball.
    pub fn is_illegal(&self) -> (r: bool)
        ensures
            r == is_illegal_delivery(*self),
    {
        match self.event {
            Some(Event::Wide) => true,
            Some(Event::NoBall) => true,
            _ => false,
        }
    }

    /// Whether the delivery took a wicket.
    pub fn is_wicket(&self) -> (r: bool)
        ensures
            r == (self.event == Some(Event::Wicket)),
    {
        match self.event {
            Some(Event::Wicket) => true,
            _ => false,
        }
    }
}

} // verus!
