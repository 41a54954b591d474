//! The live game-state snapshot: the update operations each typed event
//! drives, and the read accessors the query side renders from.

use vstd::prelude::*;
use vstd::string::StringExecFns;
use crate::message::{Event, digit_val, digit_value, event_wf};
use crate::text::{chars_of, displayable, display_byte, ascii_to_string};

verus! {

/// Which team has possession. No message of the protocol carries it, so it
/// stays at its initial value; the overlay still expects the field.
#[derive(Debug, Clone, Copy, PartialEq, Eq, Structural)]
pub enum Possession {
    /// Possession not attributed to either team.
    Neither,
    /// Home team has possession.
    Home,
    /// Guest team has possession.
    Guest,
}

/// Coarse label of where the game stands, derived from the clock events.
#[derive(Debug, Clone, Copy, PartialEq, Eq, Structural)]
pub enum GameStatus {
    /// No clock event has been applied yet.
    NotStarted,
    /// The last clock event showed the game clock running.
    Running,
    /// The last clock event showed the game clock stopped.
    Stopped,
}

/// The shared snapshot every ingest connection updates and every query
/// connection reads. Scores, fouls, time-outs and the period are kept as
/// numbers; clock positions keep the raw ASCII digit bytes the console
/// sent, so the display can be re-rendered in either precision mode.
#[derive(Debug, Clone, Copy, PartialEq, Eq, Structural)]
pub struct GameStateStore {
    /// Home score.
    pub home_score: u32,
    /// Guest score.
    pub away_score: u32,
    /// Current period, `0` until a clock event arrives.
    pub period: u8,
    /// Home team fouls.
    pub home_fouls: u8,
    /// Guest team fouls.
    pub away_fouls: u8,
    /// Home time-outs left.
    pub home_timeouts: u8,
    /// Guest time-outs left.
    pub away_timeouts: u8,
    /// Tens-of-minutes digit of the game clock, raw ASCII.
    pub minutes_tens: u8,
    /// Ones-of-minutes digit of the game clock, raw ASCII.
    pub minutes_ones: u8,
    /// Tens-of-seconds digit of the game clock, raw ASCII.
    pub seconds_tens: u8,
    /// Ones-of-seconds digit of the game clock, raw ASCII.
    pub seconds_ones: u8,
    /// The game clock is shown with tenths precision.
    pub clock_tenths: bool,
    /// The game clock is stopped.
    pub clock_off: bool,
    /// Tens-of-seconds digit of the shot clock, raw ASCII.
    pub shot_seconds_tens: u8,
    /// Ones-of-seconds digit of the shot clock, raw ASCII.
    pub shot_seconds_ones: u8,
    /// The shot clock is shown with tenths precision.
    pub shot_tenths: bool,
    /// Which team has possession.
    pub possession: Possession,
    /// Coarse game status label.
    pub status: GameStatus,
}

impl GameStateStore {
    /// Every numeric field stays inside the range its digit source allows:
    /// scores are three digits, the rest one digit each.
    pub open spec fn wf(self) -> bool {
        &&& self.home_score <= 999
        &&& self.away_score <= 999
        &&& self.period <= 9
        &&& self.home_fouls <= 9
        &&& self.away_fouls <= 9
        &&& self.home_timeouts <= 9
        &&& self.away_timeouts <= 9
    }

    /// The snapshot before any event: zeros, clock digits at ASCII `0`,
    /// nothing attributed, not started.
    pub open spec fn initial() -> GameStateStore {
        GameStateStore {
            home_score: 0,
            away_score: 0,
            period: 0,
            home_fouls: 0,
            away_fouls: 0,
            home_timeouts: 0,
            away_timeouts: 0,
            minutes_tens: 0x30,
            minutes_ones: 0x30,
            seconds_tens: 0x30,
            seconds_ones: 0x30,
            clock_tenths: false,
            clock_off: false,
            shot_seconds_tens: 0x30,
            shot_seconds_ones: 0x30,
            shot_tenths: false,
            possession: Possession::Neither,
            status: GameStatus::NotStarted,
        }
    }

    /// Build the initial snapshot.
    pub fn new() -> (r: GameStateStore)
        ensures
            r == GameStateStore::initial(),
            r.wf(),
    {
        GameStateStore {
            home_score: 0,
            away_score: 0,
            period: 0,
            home_fouls: 0,
            away_fouls: 0,
            home_timeouts: 0,
            away_timeouts: 0,
            minutes_tens: 0x30,
            minutes_ones: 0x30,
            seconds_tens: 0x30,
            seconds_ones: 0x30,
            clock_tenths: false,
            clock_off: false,
            shot_seconds_tens: 0x30,
            shot_seconds_ones: 0x30,
            shot_tenths: false,
            possession: Possession::Neither,
            status: GameStatus::NotStarted,
        }
    }

    /// The snapshot after one event: each event kind overwrites exactly its
    /// own fields, last write wins, and an `Unknown` event changes nothing.
    pub open spec fn apply_spec(self, e: Event) -> GameStateStore {
        match e {
            Event::GameClock {
                minutes_tens,
                minutes_ones,
                seconds_tens,
                seconds_ones,
                clock_off,
                tenths_mode,
                home_timeouts,
                guest_timeouts,
                period,
            } => GameStateStore {
                minutes_tens,
                minutes_ones,
                seconds_tens,
                seconds_ones,
                clock_tenths: tenths_mode,
                clock_off,
                home_timeouts: digit_val(home_timeouts) as u8,
                away_timeouts: digit_val(guest_timeouts) as u8,
                period: digit_val(period) as u8,
                status: if clock_off {
                    GameStatus::Stopped
                } else {
                    GameStatus::Running
                },
                ..self
            },
            Event::Score { home, guest } => GameStateStore {
                home_score: home,
                away_score: guest,
                ..self
            },
            Event::Fouls { home_fouls, guest_fouls, .. } => GameStateStore {
                home_fouls: digit_val(home_fouls) as u8,
                away_fouls: digit_val(guest_fouls) as u8,
                ..self
            },
            Event::ShotClock { seconds_tens, seconds_ones, tenths_mode } => GameStateStore {
                shot_seconds_tens: seconds_tens,
                shot_seconds_ones: seconds_ones,
                shot_tenths: tenths_mode,
                ..self
            },
            Event::Unknown { .. } => self,
        }
    }

    /// Fold one event into the snapshot.
    pub fn apply_event(&mut self, e: &Event)
        ensures
            *final(self) == old(self).apply_spec(*e),
    {
        match *e {
            Event::GameClock {
                minutes_tens,
                minutes_ones,
                seconds_tens,
                seconds_ones,
                clock_off,
                tenths_mode,
                home_timeouts,
                guest_timeouts,
                period,
            } => {
                self.minutes_tens = minutes_tens;
                self.minutes_ones = minutes_ones;
                self.seconds_tens = seconds_tens;
                self.seconds_ones = seconds_ones;
                self.clock_tenths = tenths_mode;
                self.clock_off = clock_off;
                self.home_timeouts = digit_value(home_timeouts) as u8;
                self.away_timeouts = digit_value(guest_timeouts) as u8;
                self.period = digit_value(period) as u8;
                self.status = if clock_off {
                    GameStatus::Stopped
                } else {
                    GameStatus::Running
                };
            },
            Event::Score { home, guest } => {
                self.home_score = home;
                self.away_score = guest;
            },
            Event::Fouls { home_fouls, guest_fouls, .. } => {
                self.home_fouls = digit_value(home_fouls) as u8;
                self.away_fouls = digit_value(guest_fouls) as u8;
            },
            Event::ShotClock { seconds_tens, seconds_ones, tenths_mode } => {
                self.shot_seconds_tens = seconds_tens;
                self.shot_seconds_ones = seconds_ones;
                self.shot_tenths = tenths_mode;
            },
            Event::Unknown { .. } => {},
        }
    }

    /// Applying any event to a well-formed snapshot leaves it well-formed:
    /// every numeric update comes from digit values, which are bounded.
    pub proof fn lemma_apply_preserves_wf(self, e: Event)
        requires
            self.wf(),
            event_wf(e),
        ensures
            self.apply_spec(e).wf(),
    {
    }

    /// An event with an unrecognized tag leaves the snapshot untouched.
    pub proof fn lemma_unknown_leaves_state(self, e: Event)
        requires
            e is Unknown,
        ensures
            self.apply_spec(e) == self,
    {
    }

    /// The characters of the game-clock display: with tenths precision
    /// `MM.s`, otherwise `MM:SS`, raw digit bytes shown as received.
    pub open spec fn time_display(self) -> Seq<char> {
        chars_of(
            if self.clock_tenths {
                seq![
                    displayable(self.minutes_tens),
                    displayable(self.minutes_ones),
                    0x2Eu8,
                    displayable(self.seconds_ones),
                ]
            } else {
                seq![
                    displayable(self.minutes_tens),
                    displayable(self.minutes_ones),
                    0x3Au8,
                    displayable(self.seconds_tens),
                    displayable(self.seconds_ones),
                ]
            },
        )
    }

    /// Render the game clock for the overlay.
    pub fn format_time(&self) -> (r: String)
        ensures
            r@ == self.time_display(),
    {
        let mut bytes: Vec<u8> = Vec::new();
        bytes.push(display_byte(self.minutes_tens));
        bytes.push(display_byte(self.minutes_ones));
        if self.clock_tenths {
            bytes.push(0x2E);
            bytes.push(display_byte(self.seconds_ones));
        } else {
            bytes.push(0x3A);
            bytes.push(display_byte(self.seconds_tens));
            bytes.push(display_byte(self.seconds_ones));
        }
        proof {
            assert(chars_of(bytes@) =~= self.time_display());
        }
        ascii_to_string(bytes)
    }

    /// The period's display name: quarters `Q1` to `Q4`, `OT` past the
    /// fourth, a dash before any clock event has named one.
    pub open spec fn period_name_spec(self) -> Seq<char> {
        if self.period == 0 {
            "-"@
        } else if self.period == 1 {
            "Q1"@
        } else if self.period == 2 {
            "Q2"@
        } else if self.period == 3 {
            "Q3"@
        } else if self.period == 4 {
            "Q4"@
        } else {
            "OT"@
        }
    }

    /// Render the period name for the overlay.
    pub fn period_name(&self) -> (r: String)
        ensures
            r@ == self.period_name_spec(),
    {
        if self.period == 0 {
            String::from_str("-")
        } else if self.period == 1 {
            String::from_str("Q1")
        } else if self.period == 2 {
            String::from_str("Q2")
        } else if self.period == 3 {
            String::from_str("Q3")
        } else if self.period == 4 {
            String::from_str("Q4")
        } else {
            String::from_str("OT")
        }
    }

    /// Whether the game is in overtime: the period count has passed the
    /// four quarters.
    pub fn is_overtime(&self) -> (r: bool)
        ensures
            r == (self.period >= 5),
    {
        self.period >= 5
    }

    /// Whether the snapshot shows a finished game.
    pub open spec fn finished_spec(self) -> bool {
        &&& self.clock_off
        &&& self.period >= 4
        &&& digit_val(self.minutes_tens) == 0
        &&& digit_val(self.minutes_ones) == 0
        &&& digit_val(self.seconds_tens) == 0
        &&& digit_val(self.seconds_ones) == 0
    }

    /// Whether the game is over: the clock stands stopped at zero in the
    /// fourth period or later.
    pub fn is_finished(&self) -> (r: bool)
        ensures
            r == self.finished_spec(),
    {
        self.clock_off && self.period >= 4 && digit_value(self.minutes_tens) == 0
            && digit_value(self.minutes_ones) == 0 && digit_value(self.seconds_tens) == 0
            && digit_value(self.seconds_ones) == 0
    }
}

/// The characters of the shot-clock display: with tenths precision `S.s`,
/// otherwise `SS`, raw digit bytes shown as received.
pub open spec fn shot_clock_display(seconds_tens: u8, seconds_ones: u8, tenths_mode: bool)
    -> Seq<char> {
    chars_of(
        if tenths_mode {
            seq![displayable(seconds_tens), 0x2Eu8, displayable(seconds_ones)]
        } else {
            seq![displayable(seconds_tens), displayable(seconds_ones)]
        },
    )
}

/// Render a shot-clock reading: `S.s` in tenths mode, `SS` otherwise.
pub fn format_shot_clock(seconds_tens: u8, seconds_ones: u8, tenths_mode: bool) -> (r: String)
    ensures
        r@ == shot_clock_display(seconds_tens, seconds_ones, tenths_mode),
{
    let mut bytes: Vec<u8> = Vec::new();
    bytes.push(display_byte(seconds_tens));
    if tenths_mode {
        bytes.push(0x2E);
    }
    bytes.push(display_byte(seconds_ones));
    proof {
        assert(chars_of(bytes@) =~= shot_clock_display(seconds_tens, seconds_ones, tenths_mode));
    }
    ascii_to_string(bytes)
}

} // verus!
