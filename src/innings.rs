use vstd::prelude::*;

use crate::notation::{parse, parse_spec, ParseError};
use crate::outcome::{is_illegal_delivery, validate_spec, Event, Outcome, ValidationError};
use crate::text::{decimal, log_text, push_decimal, push_log};

verus! {

/// The number of players on each side.
pub const ROSTER_SIZE: usize = 11;

/// The most wickets an innings can lose.
pub const MAX_WICKETS: u64 = 10;

/// The legal deliveries in one over.
pub const BALLS_PER_OVER: u64 = 6;

/// A player, known by name only.
#[derive(Clone, Debug)]
pub struct Player {
    name: String,
}

impl View for Player {
    type V = Seq<char>;

    closed spec fn view(&self) -> Seq<char> {
        self.name@
    }
}

impl Player {
    pub fn new(name: String) -> (r: Player)
        ensures
            r@ == name@,
    {
        Player { name }
    }

    pub fn name(&self) -> (r: &str)
        ensures
            r@ == self@,
    {
        self.name.as_str()
    }
}

/// Why an innings could not be set up.
#[derive(Clone, Copy, Debug, PartialEq, Eq, Structural)]
pub enum RosterError {
    /// The batting side does not have exactly eleven players.
    BattingRosterSize,
    /// The bowling side does not have exactly eleven players.
    BowlingRosterSize,
}

/// Why a delivery string was not scored.
#[derive(Clone, Copy, Debug, PartialEq, Eq, Structural)]
pub enum DeliveryError {
    /// The string is not valid notation.
    Parse(ParseError),
    /// The string reads as a delivery that is not legal.
    Invalid(ValidationError),
}

/// The state of an innings as mathematical values.
pub ghost struct InningsState {
    pub batting: Seq<Seq<char>>,
    pub bowling: Seq<Seq<char>>,
    pub total_runs: nat,
    pub wickets: nat,
    pub completed_overs: nat,
    pub balls_in_over: nat,
    /// Wides bowled.
    pub wides: nat,
    /// No-balls bowled.
    pub no_balls: nat,
    /// Runs scored as byes.
    pub byes: nat,
    /// Runs scored as leg-byes.
    pub leg_byes: nat,
    /// The deliveries since the last over ended.
    pub ball_log: Seq<Outcome>,
}

/// The invariant of an innings.
pub open spec fn state_wf(s: InningsState) -> bool {
    &&& s.batting.len() == ROSTER_SIZE
    &&& s.bowling.len() == ROSTER_SIZE
    &&& s.wickets <= MAX_WICKETS
    &&& s.balls_in_over <= BALLS_PER_OVER
    &&& s.byes + s.leg_byes <= s.total_runs
}

/// An innings before its first delivery.
pub open spec fn initial_state(batting: Seq<Seq<char>>, bowling: Seq<Seq<char>>) -> InningsState {
    InningsState {
        batting,
        bowling,
        total_runs: 0,
        wickets: 0,
        completed_overs: 0,
        balls_in_over: 0,
        wides: 0,
        no_balls: 0,
        byes: 0,
        leg_byes: 0,
        ball_log: Seq::empty(),
    }
}

/// The state after one delivery: logged, a wicket counted while fewer than ten
/// have fallen, the runs added, a wide or no-ball recorded as an extra without
/// using up a ball of the over, bye and leg-bye runs recorded as extras, and a
/// legal delivery counted toward the over up to six.
pub open spec fn score_spec(s: InningsState, o: Outcome) -> InningsState {
    InningsState {
        ball_log: s.ball_log.push(o),
        wickets: if o.event == Some(Event::Wicket) && s.wickets < MAX_WICKETS {
            s.wickets + 1
        } else {
            s.wickets
        },
        total_runs: s.total_runs + o.runs as nat,
        wides: if o.event == Some(Event::Wide) {
            s.wides + 1
        } else {
            s.wides
        },
        no_balls: if o.event == Some(Event::NoBall) {
            s.no_balls + 1
        } else {
            s.no_balls
        },
        byes: if o.event == Some(Event::Bye) {
            s.byes + o.runs as nat
        } else {
            s.byes
        },
        leg_byes: if o.event == Some(Event::LegBye) {
            s.leg_byes + o.runs as nat
        } else {
            s.leg_byes
        },
        balls_in_over: if is_illegal_delivery(o) {
            s.balls_in_over
        } else if s.balls_in_over < BALLS_PER_OVER {
            s.balls_in_over + 1
        } else {
            s.balls_in_over
        },
        ..s
    }
}

/// The state after the over is declared over.
pub open spec fn end_over_spec(s: InningsState) -> InningsState {
    InningsState {
        balls_in_over: 0,
        completed_overs: s.completed_overs + 1,
        ball_log: Seq::empty(),
        ..s
    }
}

/// Whether the counters of `s` have room for the delivery `o`.
pub open spec fn has_room(s: InningsState, o: Outcome) -> bool {
    &&& s.total_runs + o.runs <= u64::MAX
    &&& s.wides < u64::MAX
    &&& s.no_balls < u64::MAX
}

/// Whether the counters of `s` have room for any one delivery.
pub open spec fn has_room_for_any(s: InningsState) -> bool {
    &&& s.total_runs + u32::MAX <= u64::MAX
    &&& s.wides < u64::MAX
    &&& s.no_balls < u64::MAX
}

/// What recording a delivery string does: the outcome that the string reads
/// as, if it reads as a legal one, else the error of the first stage that
/// rejected it.
pub open spec fn record_spec(ball: Seq<char>) -> Result<Outcome, DeliveryError> {
    match parse_spec(ball) {
        Err(e) => Err(DeliveryError::Parse(e)),
        Ok(o) => match validate_spec(o) {
            Err(e) => Err(DeliveryError::Invalid(e)),
            Ok(_) => Ok(o),
        },
    }
}

/// The snapshot text of an innings: runs/wickets with overs.balls, the extras,
/// and the deliveries of the current over.
pub open spec fn render_text(s: InningsState) -> Seq<char> {
    decimal(s.total_runs) + "/"@ + decimal(s.wickets) + " ("@ + decimal(s.completed_overs) + "."@
        + decimal(s.balls_in_over) + ")\nextras: wides "@ + decimal(s.wides) + ", no-balls "@
        + decimal(s.no_balls) + ", byes "@ + decimal(s.byes) + ", leg-byes "@ + decimal(s.leg_byes)
        + "\nthis over:"@ + log_text(s.ball_log)
}

/// One side's innings: both rosters and the running score.
pub struct Innings {
    batting: Vec<Player>,
    bowling: Vec<Player>,
    total_runs: u64,
    wickets: u64,
    completed_overs: u64,
    balls_in_over: u64,
    wides: u64,
    no_balls: u64,
    byes: u64,
    leg_byes: u64,
    ball_log: Vec<Outcome>,
}

impl View for Innings {
    type V = InningsState;

    closed spec fn view(&self) -> InningsState {
        InningsState {
            batting: self.batting@.map_values(|p: Player| p@),
            bowling: self.bowling@.map_values(|p: Player| p@),
            total_runs: self.total_runs as nat,
            wickets: self.wickets as nat,
            completed_overs: self.completed_overs as nat,
            balls_in_over: self.balls_in_over as nat,
            wides: self.wides as nat,
            no_balls: self.no_balls as nat,
            byes: self.byes as nat,
            leg_byes: self.leg_byes as nat,
            ball_log: self.ball_log@,
        }
    }
}

impl Innings {
    pub open spec fn wf(&self) -> bool {
        state_wf(self@)
    }

    /// Starts an innings; each roster must hold exactly eleven players, the
    /// batting side being checked first.
    pub fn new(batting: Vec<Player>, bowling: Vec<Player>) -> (r: Result<Innings, RosterError>)
        ensures
            batting@.len() != ROSTER_SIZE ==> r == Err::<Innings, RosterError>(
                RosterError::BattingRosterSize,
            ),
            batting@.len() == ROSTER_SIZE && bowling@.len() != ROSTER_SIZE ==> r == Err::<
                Innings,
                RosterError,
            >(RosterError::BowlingRosterSize),
            batting@.len() == ROSTER_SIZE && bowling@.len() == ROSTER_SIZE ==> (r matches Ok(inn)
                && inn.wf() && inn@ == initial_state(
                batting@.map_values(|p: Player| p@),
                bowling@.map_values(|p: Player| p@),
            )),
    {
        if batting.len() != ROSTER_SIZE {
            return Err(RosterError::BattingRosterSize);
        }
        if bowling.len() != ROSTER_SIZE {
            return Err(RosterError::BowlingRosterSize);
        }
        let inn = Innings {
            batting,
            bowling,
            total_runs: 0,
            wickets: 0,
            completed_overs: 0,
            balls_in_over: 0,
            wides: 0,
            no_balls: 0,
            byes: 0,
            leg_byes: 0,
            ball_log: Vec::new(),
        };
        assert(inn@ =~= initial_state(inn@.batting, inn@.bowling));
        Ok(inn)
    }

    /// Folds one delivery into the innings.
    pub fn score_ball(&mut self, outcome: &Outcome)
        requires
            old(self).wf(),
            has_room(old(self)@, *outcome),
        ensures
            final(self).wf(),
            final(self)@ == score_spec(old(self)@, *outcome),
    {
        self.ball_log.push(*outcome);
        if outcome.is_wicket() && self.wickets < MAX_WICKETS {
            self.wickets = self.wickets + 1;
        }
        self.total_runs = self.total_runs + outcome.runs as u64;
        match outcome.event {
            Some(Event::Wide) => {
                self.wides = self.wides + 1;
            },
            Some(Event::NoBall) => {
                self.no_balls = self.no_balls + 1;
            },
            Some(Event::Bye) => {
                self.byes = self.byes + outcome.runs as u64;
            },
            Some(Event::LegBye) => {
                self.leg_byes = self.leg_byes + outcome.runs as u64;
            },
            _ => {},
        }
        if !outcome.is_illegal() && self.balls_in_over < BALLS_PER_OVER {
            self.balls_in_over = self.balls_in_over + 1;
        }
        assert(self@ =~= score_spec(old(self)@, *outcome));
    }

    /// Reads, checks and scores one delivery string. The innings changes only
    /// when the string reads as a legal delivery.
    pub fn record(&mut self, ball: &str) -> (r: Result<Outcome, DeliveryError>)
        requires
            old(self).wf(),
            has_room_for_any(old(self)@),
        ensures
            r == record_spec(ball@),
            final(self).wf(),
            r matches Ok(o) ==> final(self)@ == score_spec(old(self)@, o),
            r is Err ==> final(self)@ == old(self)@,
    {
        match parse(ball) {
            Err(e) => Err(DeliveryError::Parse(e)),
            Ok(o) => match o.validate() {
                Err(e) => Err(DeliveryError::Invalid(e)),
                Ok(()) => {
                    self.score_ball(&o);
                    Ok(o)
                },
            },
        }
    }

    /// Ends the current over, whatever number of balls it had.
    pub fn end_over(&mut self)
        requires
            old(self).wf(),
            old(self)@.completed_overs < u64::MAX,
        ensures
            final(self).wf(),
            final(self)@ == end_over_spec(old(self)@),
    {
        self.balls_in_over = 0;
        self.completed_overs = self.completed_overs + 1;
        self.ball_log = Vec::new();
        assert(self@ =~= end_over_spec(old(self)@));
    }

    /// Runs scored, extras included.
    pub fn total_runs(&self) -> (r: u64)
        ensures
            r == self@.total_runs,
    {
        self.total_runs
    }

    /// Wickets fallen.
    pub fn wickets(&self) -> (r: u64)
        ensures
            r == self@.wickets,
    {
        self.wickets
    }

    /// Overs ended.
    pub fn completed_overs(&self) -> (r: u64)
        ensures
            r == self@.completed_overs,
    {
        self.completed_overs
    }

    /// Legal deliveries in the current over.
    pub fn balls_in_over(&self) -> (r: u64)
        ensures
            r == self@.balls_in_over,
    {
        self.balls_in_over
    }

    /// Wides bowled.
    pub fn wides(&self) -> (r: u64)
        ensures
            r == self@.wides,
    {
        self.wides
    }

    /// No-balls bowled.
    pub fn no_balls(&self) -> (r: u64)
        ensures
            r == self@.no_balls,
    {
        self.no_balls
    }

    /// Runs scored as byes.
    pub fn byes(&self) -> (r: u64)
        ensures
            r == self@.byes,
    {
        self.byes
    }

    /// Runs scored as leg-byes.
    pub fn leg_byes(&self) -> (r: u64)
        ensures
            r == self@.leg_byes,
    {
        self.leg_byes
    }

    /// The deliveries since the last over ended, oldest first.
    pub fn ball_log(&self) -> (r: &Vec<Outcome>)
        ensures
            r@ == self@.ball_log,
    {
        &self.ball_log
    }

    pub fn batting(&self) -> (r: &Vec<Player>)
        ensures
            r@.map_values(|p: Player| p@) == self@.batting,
    {
        &self.batting
    }

    pub fn bowling(&self) -> (r: &Vec<Player>)
        ensures
            r@.map_values(|p: Player| p@) == self@.bowling,
    {
        &self.bowling
    }

    /// A text snapshot of the score and of the current over.
    pub fn render(&self) -> (r: String)
        ensures
            r@ == render_text(self@),
    {
        let mut out = String::new();
        push_decimal(&mut out, self.total_runs);
        out.append("/");
        push_decimal(&mut out, self.wickets);
        out.append(" (");
        push_decimal(&mut out, self.completed_overs);
        out.append(".");
        push_decimal(&mut out, self.balls_in_over);
        out.append(")\nextras: wides ");
        push_decimal(&mut out, self.wides);
        out.append(", no-balls ");
        push_decimal(&mut out, self.no_balls);
        out.append(", byes ");
        push_decimal(&mut out, self.byes);
        out.append(", leg-byes ");
        push_decimal(&mut out, self.leg_byes);
        out.append("\nthis over:");
        push_log(&mut out, &self.ball_log);
        assert(out@ =~= render_text(self@));
        out
    }
}

} // verus!
