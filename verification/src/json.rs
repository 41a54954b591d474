//! Rendering a snapshot into the JSON body the overlay's state endpoint
//! serves, character-exact.

use vstd::prelude::*;
use vstd::string::StringExecFns;
use crate::state::{GameStateStore, Possession, GameStatus};
use crate::text::dec_chars;

verus! {

/// The characters of a JSON boolean.
pub open spec fn bool_chars(b: bool) -> Seq<char> {
    if b {
        "true"@
    } else {
        "false"@
    }
}

/// The label rendered for a possession value.
pub open spec fn possession_chars(p: Possession) -> Seq<char> {
    match p {
        Possession::Neither => "Neither"@,
        Possession::Home => "Home"@,
        Possession::Guest => "Guest"@,
    }
}

/// The label rendered for a game-status value.
pub open spec fn status_chars(s: GameStatus) -> Seq<char> {
    match s {
        GameStatus::NotStarted => "NotStarted"@,
        GameStatus::Running => "Running"@,
        GameStatus::Stopped => "Stopped"@,
    }
}

/// The full JSON body served for a snapshot: the fixed field set in its
/// fixed order, numbers in decimal, labels and the clock display quoted.
pub open spec fn state_json_chars(s: GameStateStore) -> Seq<char> {
    "{\"home_score\":"@ + dec_chars(s.home_score as nat) + ",\"away_score\":"@
        + dec_chars(s.away_score as nat) + ",\"period\":"@ + dec_chars(s.period as nat)
        + ",\"period_name\":\""@ + s.period_name_spec() + "\",\"time\":\""@ + s.time_display()
        + "\",\"home_fouls\":"@ + dec_chars(s.home_fouls as nat) + ",\"away_fouls\":"@
        + dec_chars(s.away_fouls as nat) + ",\"home_timeouts\":"@
        + dec_chars(s.home_timeouts as nat) + ",\"away_timeouts\":"@
        + dec_chars(s.away_timeouts as nat) + ",\"possession\":\""@
        + possession_chars(s.possession) + "\",\"game_state\":\""@ + status_chars(s.status)
        + "\",\"is_overtime\":"@ + bool_chars(s.period >= 5) + ",\"is_finished\":"@
        + bool_chars(s.finished_spec()) + "}"@
}

/// The body served while no event has ever been applied.
pub open spec fn no_data_json_chars() -> Seq<char> {
    "{\"error\":\"No game data available\"}"@
}

/// Append a JSON boolean to `out`.
fn append_bool(out: &mut String, b: bool)
    ensures
        final(out)@ == old(out)@ + bool_chars(b),
{
    if b {
        out.append("true");
    } else {
        out.append("false");
    }
}

/// Render the state-endpoint JSON body for a snapshot.
pub fn render_state_json(s: &GameStateStore) -> (r: String)
    ensures
        r@ == state_json_chars(*s),
{
    let mut out = String::from_str("{\"home_score\":");
    let home = crate::text::dec_string(s.home_score);
    out.append(home.as_str());
    out.append(",\"away_score\":");
    let away = crate::text::dec_string(s.away_score);
    out.append(away.as_str());
    out.append(",\"period\":");
    let period = crate::text::dec_string(s.period as u32);
    out.append(period.as_str());
    out.append(",\"period_name\":\"");
    let pname = s.period_name();
    out.append(pname.as_str());
    out.append("\",\"time\":\"");
    let time = s.format_time();
    out.append(time.as_str());
    out.append("\",\"home_fouls\":");
    let hf = crate::text::dec_string(s.home_fouls as u32);
    out.append(hf.as_str());
    out.append(",\"away_fouls\":");
    let af = crate::text::dec_string(s.away_fouls as u32);
    out.append(af.as_str());
    out.append(",\"home_timeouts\":");
    let ht = crate::text::dec_string(s.home_timeouts as u32);
    out.append(ht.as_str());
    out.append(",\"away_timeouts\":");
    let at = crate::text::dec_string(s.away_timeouts as u32);
    out.append(at.as_str());
    out.append(",\"possession\":\"");
    match s.possession {
        Possession::Neither => out.append("Neither"),
        Possession::Home => out.append("Home"),
        Possession::Guest => out.append("Guest"),
    }
    out.append("\",\"game_state\":\"");
    match s.status {
        GameStatus::NotStarted => out.append("NotStarted"),
        GameStatus::Running => out.append("Running"),
        GameStatus::Stopped => out.append("Stopped"),
    }
    out.append("\",\"is_overtime\":");
    append_bool(&mut out, s.period >= 5);
    out.append(",\"is_finished\":");
    append_bool(&mut out, s.is_finished());
    out.append("}");
    proof {
        assert(out@ =~= state_json_chars(*s));
    }
    out
}

/// Render the body served while no event has ever been applied.
pub fn render_no_data_json() -> (r: String)
    ensures
        r@ == no_data_json_chars(),
{
    String::from_str("{\"error\":\"No game data available\"}")
}

} // verus!
