//! Display formatting as pure, fully specified string construction: decimal
//! numbers, `1h 2m 3s` durations, itinerary title lines and leg captions.
//! Only the wall-clock conversion of an epoch timestamp comes from outside.

use vstd::prelude::*;
use vstd::string::StringExecFns;
use chrono::{Local, TimeZone, Timelike};
use crate::model::{Itinerary, Leg, Mode};

verus! {

/// Epoch seconds safely below chrono's calendar range limit.
pub const MAX_LOCAL_EPOCH_SECS: u64 = 253402300800;

/// The decimal digit character for one digit value.
pub open spec fn digit_char(d: int) -> char {
    if d == 0 {
        '0'
    } else if d == 1 {
        '1'
    } else if d == 2 {
        '2'
    } else if d == 3 {
        '3'
    } else if d == 4 {
        '4'
    } else if d == 5 {
        '5'
    } else if d == 6 {
        '6'
    } else if d == 7 {
        '7'
    } else if d == 8 {
        '8'
    } else {
        '9'
    }
}

/// The decimal representation of a non-negative number, no leading zeroes
/// (a lone zero for 0).
pub open spec fn dec_digits(n: int) -> Seq<char>
    decreases n,
{
    if n < 10 {
        seq![digit_char(n)]
    } else {
        dec_digits(n / 10).push(digit_char(n % 10))
    }
}

/// Two pieces joined by one space, where an empty piece takes no space.
pub open spec fn join_sp(a: Seq<char>, b: Seq<char>) -> Seq<char> {
    if a.len() == 0 {
        b
    } else if b.len() == 0 {
        a
    } else {
        a + " "@ + b
    }
}

/// A count with its unit suffix, empty when the count is zero.
pub open spec fn unit_part(n: int, unit: Seq<char>) -> Seq<char> {
    if n > 0 {
        dec_digits(n) + unit
    } else {
        Seq::<char>::empty()
    }
}

/// A duration in seconds written as `1h 2m 3s`, with zero components left
/// out entirely; zero seconds come out as the empty string.
pub open spec fn spec_format_duration(secs: int) -> Seq<char> {
    join_sp(join_sp(unit_part(secs / 3600, "h"@), unit_part(secs % 3600 / 60, "m"@)), unit_part(secs % 3600 % 60, "s"@))
}

/// A number below 100 padded to exactly two digits.
pub open spec fn two_digits(n: int) -> Seq<char> {
    if n < 10 {
        seq!['0'] + dec_digits(n)
    } else {
        dec_digits(n)
    }
}

/// An itinerary's title line: local start and end times and total duration,
/// `[ 08:05 - 09:15 | 1h 10m ]`.
pub open spec fn spec_title(sh: int, sm: int, eh: int, em: int, dur: int) -> Seq<char> {
    "[ "@ + two_digits(sh) + ":"@ + two_digits(sm) + " - "@ + two_digits(eh) + ":"@ + two_digits(
        em,
    ) + " | "@ + spec_format_duration(dur) + " ]"@
}

/// The pictogram shown for a leg's travel mode.
pub open spec fn spec_mode_symbol(m: Mode) -> Seq<char> {
    match m {
        Mode::Walk => "\u{1F6B6}"@,
        Mode::Bus => "\u{1F68C}"@,
        Mode::Rail => "\u{1F686}"@,
        Mode::Subway => "\u{1F687}"@,
        Mode::Other => "none"@,
    }
}

/// A leg's caption: the mode pictogram, for a ride its route short name in
/// parentheses, and the leg's duration.
pub open spec fn spec_leg_line(mode: Mode, dur: int, route: Seq<char>) -> Seq<char> {
    if mode == Mode::Walk {
        spec_mode_symbol(mode) + " "@ + spec_format_duration(dur)
    } else {
        spec_mode_symbol(mode) + " ("@ + route + ") "@ + spec_format_duration(dur)
    }
}

/// One decimal digit as a string slice.
fn digit_str(d: u64) -> (r: &'static str)
    requires
        d < 10,
    ensures
        r@ == seq![digit_char(d as int)],
{
    let r = match d {
        0 => "0",
        1 => "1",
        2 => "2",
        3 => "3",
        4 => "4",
        5 => "5",
        6 => "6",
        7 => "7",
        8 => "8",
        _ => "9",
    };
    proof {
        reveal_strlit("0");
        reveal_strlit("1");
        reveal_strlit("2");
        reveal_strlit("3");
        reveal_strlit("4");
        reveal_strlit("5");
        reveal_strlit("6");
        reveal_strlit("7");
        reveal_strlit("8");
        reveal_strlit("9");
        assert(r@ =~= seq![digit_char(d as int)]);
    }
    r
}

/// A number in decimal, matching `dec_digits` exactly.
pub fn u64_to_string(n: u64) -> (s: String)
    ensures
        s@ == dec_digits(n as int),
    decreases n,
{
    if n < 10 {
        digit_str(n).to_owned()
    } else {
        let mut s = u64_to_string(n / 10);
        s.append(digit_str(n % 10));
        proof {
            assert(s@ =~= dec_digits(n as int));
        }
        s
    }
}

/// A duration in whole seconds as `1h 2m 3s` (empty for zero), matching
/// `spec_format_duration` exactly.
pub fn format_duration(seconds: u64) -> (r: String)
    ensures
        r@ == spec_format_duration(seconds as int),
{
    let hours = seconds / 3600;
    let minutes = seconds % 3600 / 60;
    let secs = seconds % 3600 % 60;
    let mut out = String::new();
    let mut nonempty = false;
    if hours > 0 {
        let digits = u64_to_string(hours);
        out.append(digits.as_str());
        out.append("h");
        nonempty = true;
    }
    proof {
        assert(out@ =~= unit_part(hours as int, "h"@));
    }
    if minutes > 0 {
        if nonempty {
            out.append(" ");
        }
        let digits = u64_to_string(minutes);
        out.append(digits.as_str());
        out.append("m");
        nonempty = true;
    }
    proof {
        assert(out@ =~= join_sp(unit_part(hours as int, "h"@), unit_part(minutes as int, "m"@)));
    }
    if secs > 0 {
        if nonempty {
            out.append(" ");
        }
        let digits = u64_to_string(secs);
        out.append(digits.as_str());
        out.append("s");
    }
    proof {
        assert(out@ =~= spec_format_duration(seconds as int));
    }
    out
}

/// A number below 100 padded to two digits, matching `two_digits` exactly.
pub fn two_digit_string(n: u64) -> (r: String)
    requires
        n < 100,
    ensures
        r@ == two_digits(n as int),
{
    if n < 10 {
        let mut s = "0".to_owned();
        s.append(digit_str(n));
        proof {
            reveal_strlit("0");
            assert(s@ =~= two_digits(n as int));
        }
        s
    } else {
        u64_to_string(n)
    }
}

/// The title line from already-converted wall-clock fields, matching
/// `spec_title` exactly.
pub fn render_title(start_h: u8, start_m: u8, end_h: u8, end_m: u8, duration_secs: u64) -> (r:
    String)
    requires
        start_h < 24,
        start_m < 60,
        end_h < 24,
        end_m < 60,
    ensures
        r@ == spec_title(start_h as int, start_m as int, end_h as int, end_m as int, duration_secs as int),
{
    let mut out = "[ ".to_owned();
    let p = two_digit_string(start_h as u64);
    out.append(p.as_str());
    out.append(":");
    let p = two_digit_string(start_m as u64);
    out.append(p.as_str());
    out.append(" - ");
    let p = two_digit_string(end_h as u64);
    out.append(p.as_str());
    out.append(":");
    let p = two_digit_string(end_m as u64);
    out.append(p.as_str());
    out.append(" | ");
    let p = format_duration(duration_secs);
    out.append(p.as_str());
    out.append(" ]");
    proof {
        assert(out@ =~= spec_title(start_h as int, start_m as int, end_h as int, end_m as int, duration_secs as int));
    }
    out
}

/// Relies on chrono's `TimeZone::timestamp_opt` on `Local` and on
/// `Timelike::hour` and `minute`: a UTC timestamp within the calendar range
/// maps to exactly one local wall-clock time, whose hour is below 24 and
/// whose minute is below 60. Which time that is depends on the machine's
/// time zone, so nothing more is claimed.
#[verifier::external_body]
fn local_hour_minute(epoch_secs: u64) -> (r: (u8, u8))
    requires
        epoch_secs < MAX_LOCAL_EPOCH_SECS,
    ensures
        r.0 < 24,
        r.1 < 60,
{
    let dt = Local.timestamp_opt(epoch_secs as i64, 0).unwrap();
    (dt.hour() as u8, dt.minute() as u8)
}

/// The title line of an itinerary: its start and end instants rendered as
/// local wall-clock hours and minutes, and its total duration. The clock
/// fields come from the machine's time zone, so the contract fixes the
/// string's shape for some in-range clock values rather than naming them.
pub fn format_title(itin: &Itinerary) -> (r: String)
    requires
        itin.start_time_ms / 1000 < MAX_LOCAL_EPOCH_SECS,
        itin.end_time_ms / 1000 < MAX_LOCAL_EPOCH_SECS,
    ensures
        exists|sh: int, sm: int, eh: int, em: int|
            0 <= sh < 24 && 0 <= sm < 60 && 0 <= eh < 24 && 0 <= em < 60 && r@ == #[trigger] spec_title(
                sh,
                sm,
                eh,
                em,
                itin.duration_secs as int,
            ),
{
    let (sh, sm) = local_hour_minute(itin.start_time_ms / 1000);
    let (eh, em) = local_hour_minute(itin.end_time_ms / 1000);
    let r = render_title(sh, sm, eh, em, itin.duration_secs);
    proof {
        assert(r@ == spec_title(sh as int, sm as int, eh as int, em as int, itin.duration_secs as int));
    }
    r
}

/// A leg's caption, matching `spec_leg_line` exactly.
pub fn leg_line(leg: &Leg) -> (r: String)
    ensures
        r@ == spec_leg_line(leg.mode, leg.duration_secs as int, leg.route_short_name@),
{
    let mut out = match leg.mode {
        Mode::Walk => "\u{1F6B6}".to_owned(),
        Mode::Bus => "\u{1F68C}".to_owned(),
        Mode::Rail => "\u{1F686}".to_owned(),
        Mode::Subway => "\u{1F687}".to_owned(),
        Mode::Other => "none".to_owned(),
    };
    if matches!(leg.mode, Mode::Walk) {
        out.append(" ");
    } else {
        out.append(" (");
        out.append(leg.route_short_name.as_str());
        out.append(") ");
    }
    let dur = format_duration(leg.duration_secs);
    out.append(dur.as_str());
    proof {
        assert(out@ =~= spec_leg_line(leg.mode, leg.duration_secs as int, leg.route_short_name@));
    }
    out
}

/// The stop name shown above a leg: rides show where they board, a walking
/// leg shows nothing.
pub open spec fn spec_leg_from_label(leg: Leg) -> Seq<char> {
    if leg.mode == Mode::Walk {
        ""@
    } else {
        leg.from_stop@
    }
}

/// The stop name shown below a leg: rides show where they alight, a walking
/// leg shows nothing.
pub open spec fn spec_leg_to_label(leg: Leg) -> Seq<char> {
    if leg.mode == Mode::Walk {
        ""@
    } else {
        leg.to_stop@
    }
}

/// The boarding label of a leg, matching `spec_leg_from_label`.
pub fn leg_from_label<'a>(leg: &'a Leg) -> (r: &'a str)
    ensures
        r@ == spec_leg_from_label(*leg),
{
    if matches!(leg.mode, Mode::Walk) {
        ""
    } else {
        leg.from_stop.as_str()
    }
}

/// The alighting label of a leg, matching `spec_leg_to_label`.
pub fn leg_to_label<'a>(leg: &'a Leg) -> (r: &'a str)
    ensures
        r@ == spec_leg_to_label(*leg),
{
    if matches!(leg.mode, Mode::Walk) {
        ""
    } else {
        leg.to_stop.as_str()
    }
}

} // verus!
