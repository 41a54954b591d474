//! Payload interpretation: the two-byte type tag, fixed-offset fields and
//! status-word bit schemas that turn a validated frame into a typed event.

use vstd::prelude::*;
use crate::frame::ProtocolFrame;

verus! {

/// First tag byte of the game-time/time-outs message, ASCII `1`.
pub const TAG_TIME_1: u8 = 0x31;
/// Second tag byte of the game-time/time-outs message, ASCII `8`.
pub const TAG_TIME_2: u8 = 0x38;
/// First tag byte of the score and the fouls messages, ASCII `3`.
pub const TAG_SCORE_1: u8 = 0x33;
/// Second tag byte of the score message, ASCII `0`.
pub const TAG_SCORE_2: u8 = 0x30;
/// Second tag byte of the fouls/player message, ASCII `1`.
pub const TAG_FOULS_2: u8 = 0x31;
/// First tag byte of the shot-clock message, ASCII `5`.
pub const TAG_SHOT_1: u8 = 0x35;
/// Second tag byte of the shot-clock message, ASCII `0`.
pub const TAG_SHOT_2: u8 = 0x30;

/// Whether any bit selected by `mask` is set in `byte`.
pub open spec fn bit_set(byte: u8, mask: u8) -> bool {
    byte & mask != 0
}

/// Status word of the game-time/time-outs message, one flag per bit.
#[derive(Debug, Clone, Copy, PartialEq, Eq, Structural)]
pub struct StatusWord18 {
    /// Bit 0: which clock the console is showing.
    pub clock_type: bool,
    /// Bit 1: the game clock is stopped.
    pub game_clock_off: bool,
    /// Bit 2: the horn is sounding.
    pub horn_on: bool,
    /// Bit 4: the time fields carry tenths-of-a-second precision.
    pub possession_in_tenth: bool,
    /// Bit 6: a new match has started.
    pub new_match: bool,
    /// Bit 7: reserved by the protocol, passed through unchanged.
    pub b7: bool,
}

impl StatusWord18 {
    /// Split a raw status byte into its flags.
    pub fn from_byte(byte: u8) -> (r: Self)
        ensures
            r == StatusWord18::spec_from_byte(byte),
    {
        Self {
            clock_type: (byte & 0x01) != 0,
            game_clock_off: (byte & 0x02) != 0,
            horn_on: (byte & 0x04) != 0,
            possession_in_tenth: (byte & 0x10) != 0,
            new_match: (byte & 0x40) != 0,
            b7: (byte & 0x80) != 0,
        }
    }

    /// The flags a raw status byte stands for.
    pub open spec fn spec_from_byte(byte: u8) -> StatusWord18 {
        StatusWord18 {
            clock_type: bit_set(byte, 0x01),
            game_clock_off: bit_set(byte, 0x02),
            horn_on: bit_set(byte, 0x04),
            possession_in_tenth: bit_set(byte, 0x10),
            new_match: bit_set(byte, 0x40),
            b7: bit_set(byte, 0x80),
        }
    }
}

/// Status word of the shot-clock message, one flag per bit.
#[derive(Debug, Clone, Copy, PartialEq, Eq, Structural)]
pub struct StatusWord50 {
    /// Bit 1: the possession timer is running.
    pub status_possession_timer: bool,
    /// Bit 2: the possession horn is sounding.
    pub status_possession_horn: bool,
    /// Bit 3: state of the shot clock.
    pub status_of_shot_clock: bool,
    /// Bit 4: the time fields carry tenths-of-a-second precision.
    pub possession_timer_in_tenths: bool,
    /// Bit 7: reserved by the protocol, passed through unchanged.
    pub b7: bool,
}

impl StatusWord50 {
    /// Split a raw status byte into its flags.
    pub fn from_byte(byte: u8) -> (r: Self)
        ensures
            r == StatusWord50::spec_from_byte(byte),
    {
        Self {
            status_possession_timer: (byte & 0x02) != 0,
            status_possession_horn: (byte & 0x04) != 0,
            status_of_shot_clock: (byte & 0x08) != 0,
            possession_timer_in_tenths: (byte & 0x10) != 0,
            b7: (byte & 0x80) != 0,
        }
    }

    /// The flags a raw status byte stands for.
    pub open spec fn spec_from_byte(byte: u8) -> StatusWord50 {
        StatusWord50 {
            status_possession_timer: bit_set(byte, 0x02),
            status_possession_horn: bit_set(byte, 0x04),
            status_of_shot_clock: bit_set(byte, 0x08),
            possession_timer_in_tenths: bit_set(byte, 0x10),
            b7: bit_set(byte, 0x80),
        }
    }
}

/// The numeric value of an ASCII digit byte; any other byte counts as zero.
/// The console pads unused positions with non-digit bytes, which carry no
/// numeric weight.
pub open spec fn digit_val(b: u8) -> u32 {
    if 0x30 <= b <= 0x39 {
        (b - 0x30) as u32
    } else {
        0u32
    }
}

/// A three-position ASCII score read decimally: hundreds, tens, ones.
pub open spec fn score_val(h: u8, t: u8, o: u8) -> u32 {
    (100 * digit_val(h) + 10 * digit_val(t) + digit_val(o)) as u32
}

/// A typed game event, one per recognized message layout. Digit fields keep
/// the raw ASCII bytes the console sent, so a consumer can re-render them;
/// score fields are already combined decimally.
#[derive(Debug, Clone, Copy, PartialEq, Eq, Structural)]
pub enum Event {
    /// Game time and time-outs.
    GameClock {
        /// Tens-of-minutes digit, raw ASCII.
        minutes_tens: u8,
        /// Ones-of-minutes digit, raw ASCII.
        minutes_ones: u8,
        /// Tens-of-seconds digit, raw ASCII.
        seconds_tens: u8,
        /// Ones-of-seconds digit, raw ASCII.
        seconds_ones: u8,
        /// The game clock is stopped (status bit 1).
        clock_off: bool,
        /// The time is shown with tenths precision (status bit 4).
        tenths_mode: bool,
        /// Home time-outs digit, raw ASCII.
        home_timeouts: u8,
        /// Guest time-outs digit, raw ASCII.
        guest_timeouts: u8,
        /// Current period digit, raw ASCII.
        period: u8,
    },
    /// Both teams' scores, combined decimally from their digit positions.
    Score {
        /// Home score.
        home: u32,
        /// Guest score.
        guest: u32,
    },
    /// Team fouls and the player on the foul line.
    Fouls {
        /// Home fouls digit, raw ASCII.
        home_fouls: u8,
        /// Guest fouls digit, raw ASCII.
        guest_fouls: u8,
        /// First digit of the player's number, raw ASCII.
        player_on_line_1: u8,
        /// Second digit of the player's number, raw ASCII.
        player_on_line_2: u8,
        /// The player's fault count digit, raw ASCII.
        player_fault_count: u8,
        /// The player's team, raw ASCII.
        player_team: u8,
    },
    /// Shot-clock time.
    ShotClock {
        /// Tens-of-seconds digit, raw ASCII.
        seconds_tens: u8,
        /// Ones-of-seconds digit, raw ASCII.
        seconds_ones: u8,
        /// The time is shown with tenths precision (status bit 4).
        tenths_mode: bool,
    },
    /// A payload whose two-byte tag no layout claims; applying it changes
    /// nothing.
    Unknown {
        /// First tag byte as received.
        tag_1: u8,
        /// Second tag byte as received.
        tag_2: u8,
    },
}

/// Why a payload produced no event.
#[derive(Debug, Clone, Copy, PartialEq, Eq, Structural)]
pub enum MessageError {
    /// The payload is shorter than its tag's layout requires, or too short
    /// to carry a tag at all.
    TooShort,
}

/// The event a payload stands for, or `TooShort` where the payload cannot
/// fill its tag's fixed layout. Unrecognized tags map to `Event::Unknown`.
pub open spec fn decode_message(m: Seq<u8>) -> Result<Event, MessageError> {
    if m.len() < 2 {
        Err(MessageError::TooShort)
    } else if m[0] == TAG_TIME_1 && m[1] == TAG_TIME_2 {
        if m.len() < 14 {
            Err(MessageError::TooShort)
        } else {
            Ok(Event::GameClock {
                minutes_tens: m[4],
                minutes_ones: m[5],
                seconds_tens: m[6],
                seconds_ones: m[7],
                clock_off: bit_set(m[2], 0x02),
                tenths_mode: bit_set(m[2], 0x10),
                home_timeouts: m[8],
                guest_timeouts: m[9],
                period: m[12],
            })
        }
    } else if m[0] == TAG_SCORE_1 && m[1] == TAG_SCORE_2 {
        if m.len() < 9 {
            Err(MessageError::TooShort)
        } else {
            Ok(Event::Score {
                home: score_val(m[3], m[4], m[5]),
                guest: score_val(m[6], m[7], m[8]),
            })
        }
    } else if m[0] == TAG_SCORE_1 && m[1] == TAG_FOULS_2 {
        if m.len() < 11 {
            Err(MessageError::TooShort)
        } else {
            Ok(Event::Fouls {
                home_fouls: m[4],
                guest_fouls: m[6],
                player_on_line_1: m[7],
                player_on_line_2: m[8],
                player_fault_count: m[9],
                player_team: m[10],
            })
        }
    } else if m[0] == TAG_SHOT_1 && m[1] == TAG_SHOT_2 {
        if m.len() < 5 {
            Err(MessageError::TooShort)
        } else {
            Ok(Event::ShotClock {
                seconds_tens: m[3],
                seconds_ones: m[4],
                tenths_mode: bit_set(m[2], 0x10),
            })
        }
    } else {
        Ok(Event::Unknown { tag_1: m[0], tag_2: m[1] })
    }
}

/// What holds of every event the decoder can produce: a score combined
/// from three decimal digits cannot exceed 999.
pub open spec fn event_wf(e: Event) -> bool {
    e matches Event::Score { home, guest } ==> home <= 999 && guest <= 999
}

/// Every event the decoder produces is well-formed.
pub proof fn lemma_decode_event_wf(m: Seq<u8>)
    ensures
        decode_message(m) matches Ok(e) ==> event_wf(e),
{
}

/// A full-length game-time payload always decodes to a `GameClock` event
/// whose `clock_off` flag is exactly the status byte's clock-off bit: set
/// bit means `true`, cleared bit means `false`.
pub proof fn lemma_clock_off_follows_status_bit(m: Seq<u8>)
    requires
        m.len() >= 14,
        m[0] == TAG_TIME_1,
        m[1] == TAG_TIME_2,
    ensures
        decode_message(m) matches Ok(Event::GameClock { clock_off, .. })
            && clock_off == bit_set(m[2], 0x02),
{
}

/// A payload whose two-byte tag no layout claims decodes to `Unknown`,
/// carrying the tag bytes as received.
pub proof fn lemma_unrecognized_tag(m: Seq<u8>)
    requires
        m.len() >= 2,
        !(m[0] == TAG_TIME_1 && m[1] == TAG_TIME_2),
        !(m[0] == TAG_SCORE_1 && m[1] == TAG_SCORE_2),
        !(m[0] == TAG_SCORE_1 && m[1] == TAG_FOULS_2),
        !(m[0] == TAG_SHOT_1 && m[1] == TAG_SHOT_2),
    ensures
        decode_message(m) == Ok::<Event, MessageError>(Event::Unknown {
            tag_1: m[0],
            tag_2: m[1],
        }),
{
}

/// Executable decimal combination of a three-digit ASCII score.
pub fn score_value(h: u8, t: u8, o: u8) -> (r: u32)
    ensures
        r == score_val(h, t, o),
{
    digit_value(h) * 100 + digit_value(t) * 10 + digit_value(o)
}

/// Executable numeric value of one ASCII digit byte.
pub fn digit_value(b: u8) -> (r: u32)
    ensures
        r == digit_val(b),
        r <= 9,
{
    if 0x30 <= b && b <= 0x39 {
        (b - 0x30) as u32
    } else {
        0
    }
}

/// Interpret a validated frame's payload by its two-byte type tag.
///
/// Recognized tags with a full-length payload produce their typed event;
/// unrecognized tags produce `Event::Unknown`; a payload too short for its
/// tag — or for any tag — produces `MessageError::TooShort` and no event.
pub fn parse_valid_frame(frame: ProtocolFrame) -> (r: Result<Event, MessageError>)
    ensures
        r == decode_message(frame.message@),
{
    let m = &frame.message;
    if m.len() < 2 {
        return Err(MessageError::TooShort);
    }
    if m[0] == TAG_TIME_1 && m[1] == TAG_TIME_2 {
        if m.len() < 14 {
            return Err(MessageError::TooShort);
        }
        let status = StatusWord18::from_byte(m[2]);
        Ok(Event::GameClock {
            minutes_tens: m[4],
            minutes_ones: m[5],
            seconds_tens: m[6],
            seconds_ones: m[7],
            clock_off: status.game_clock_off,
            tenths_mode: status.possession_in_tenth,
            home_timeouts: m[8],
            guest_timeouts: m[9],
            period: m[12],
        })
    } else if m[0] == TAG_SCORE_1 && m[1] == TAG_SCORE_2 {
        if m.len() < 9 {
            return Err(MessageError::TooShort);
        }
        Ok(Event::Score {
            home: score_value(m[3], m[4], m[5]),
            guest: score_value(m[6], m[7], m[8]),
        })
    } else if m[0] == TAG_SCORE_1 && m[1] == TAG_FOULS_2 {
        if m.len() < 11 {
            return Err(MessageError::TooShort);
        }
        Ok(Event::Fouls {
            home_fouls: m[4],
            guest_fouls: m[6],
            player_on_line_1: m[7],
            player_on_line_2: m[8],
            player_fault_count: m[9],
            player_team: m[10],
        })
    } else if m[0] == TAG_SHOT_1 && m[1] == TAG_SHOT_2 {
        if m.len() < 5 {
            return Err(MessageError::TooShort);
        }
        let status = StatusWord50::from_byte(m[2]);
        Ok(Event::ShotClock {
            seconds_tens: m[3],
            seconds_ones: m[4],
            tenths_mode: status.possession_timer_in_tenths,
        })
    } else {
        Ok(Event::Unknown { tag_1: m[0], tag_2: m[1] })
    }
}

} // verus!
