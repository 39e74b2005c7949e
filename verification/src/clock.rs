//! The clock reader: obtains the current local time as plain calendar
//! fields and formats them as
//! `<abbreviated-weekday> <abbreviated-month> <day> - <hour:minute 12h> <AM/PM>`.

use vstd::prelude::*;
use vstd::string::StringExecFns;
use crate::text::{digit_char, digit_str};

verus! {

/// The calendar fields of one local wall-clock instant.
#[derive(Clone, Copy, Debug, PartialEq, Eq, Structural)]
pub struct ClockParts {
    /// Days from Sunday, 0 to 6.
    pub weekday: u8,
    /// Month number, 1 to 12.
    pub month: u8,
    /// Day of month, 1 to 31.
    pub day: u8,
    /// Hour, 0 to 23.
    pub hour: u8,
    /// Minute, 0 to 59.
    pub minute: u8,
}

impl ClockParts {
    /// Every field lies in its calendar range.
    pub open spec fn wf(&self) -> bool {
        &&& self.weekday <= 6
        &&& 1 <= self.month <= 12
        &&& 1 <= self.day <= 31
        &&& self.hour <= 23
        &&& self.minute <= 59
    }
}

/// The three-letter English weekday name, Sunday first.
pub open spec fn weekday_abbrev(w: int) -> Seq<char> {
    if w == 0 {
        "Sun"@
    } else if w == 1 {
        "Mon"@
    } else if w == 2 {
        "Tue"@
    } else if w == 3 {
        "Wed"@
    } else if w == 4 {
        "Thu"@
    } else if w == 5 {
        "Fri"@
    } else {
        "Sat"@
    }
}

/// The three-letter English month name.
pub open spec fn month_abbrev(m: int) -> Seq<char> {
    if m == 1 {
        "Jan"@
    } else if m == 2 {
        "Feb"@
    } else if m == 3 {
        "Mar"@
    } else if m == 4 {
        "Apr"@
    } else if m == 5 {
        "May"@
    } else if m == 6 {
        "Jun"@
    } else if m == 7 {
        "Jul"@
    } else if m == 8 {
        "Aug"@
    } else if m == 9 {
        "Sep"@
    } else if m == 10 {
        "Oct"@
    } else if m == 11 {
        "Nov"@
    } else {
        "Dec"@
    }
}

/// A number under 100 as exactly two digits, zero-padded.
pub open spec fn two_digits(n: int) -> Seq<char> {
    seq![digit_char(n / 10), digit_char(n % 10)]
}

/// The hour on the 12-hour clock: 0 becomes 12, 13 becomes 1.
pub open spec fn hour12(h: int) -> int {
    if h % 12 == 0 {
        12
    } else {
        h % 12
    }
}

/// The formatted clock line for the given fields.
pub open spec fn clock_spec(p: ClockParts) -> Seq<char> {
    weekday_abbrev(p.weekday as int) + " "@ + month_abbrev(p.month as int) + " "@ + two_digits(
        p.day as int,
    ) + " - "@ + two_digits(hour12(p.hour as int)) + ":"@ + two_digits(p.minute as int) + " "@ + (
    if p.hour < 12 {
        "AM"@
    } else {
        "PM"@
    })
}

fn weekday_str(w: u8) -> (r: &'static str)
    requires
        w <= 6,
    ensures
        r@ == weekday_abbrev(w as int),
{
    if w == 0 {
        "Sun"
    } else if w == 1 {
        "Mon"
    } else if w == 2 {
        "Tue"
    } else if w == 3 {
        "Wed"
    } else if w == 4 {
        "Thu"
    } else if w == 5 {
        "Fri"
    } else {
        "Sat"
    }
}

fn month_str(m: u8) -> (r: &'static str)
    requires
        1 <= m <= 12,
    ensures
        r@ == month_abbrev(m as int),
{
    if m == 1 {
        "Jan"
    } else if m == 2 {
        "Feb"
    } else if m == 3 {
        "Mar"
    } else if m == 4 {
        "Apr"
    } else if m == 5 {
        "May"
    } else if m == 6 {
        "Jun"
    } else if m == 7 {
        "Jul"
    } else if m == 8 {
        "Aug"
    } else if m == 9 {
        "Sep"
    } else if m == 10 {
        "Oct"
    } else if m == 11 {
        "Nov"
    } else {
        "Dec"
    }
}

fn append_two_digits(out: &mut String, n: u8)
    requires
        n < 100,
    ensures
        final(out)@ == old(out)@ + two_digits(n as int),
{
    out.append(digit_str(n / 10));
    out.append(digit_str(n % 10));
    proof {
        assert(final(out)@ =~= old(out)@ + two_digits(n as int));
    }
}

/// Formats the clock fields as chrono's `%a %b %d - %I:%M %p` pattern does.
pub fn format_clock(p: &ClockParts) -> (r: String)
    requires
        p.wf(),
    ensures
        r@ == clock_spec(*p),
{
    let mut r = String::from_str(weekday_str(p.weekday));
    r.append(" ");
    r.append(month_str(p.month));
    r.append(" ");
    append_two_digits(&mut r, p.day);
    r.append(" - ");
    let h = if p.hour % 12 == 0 {
        12
    } else {
        p.hour % 12
    };
    append_two_digits(&mut r, h);
    r.append(":");
    append_two_digits(&mut r, p.minute);
    r.append(" ");
    if p.hour < 12 {
        r.append("AM");
    } else {
        r.append("PM");
    }
    proof {
        assert(r@ =~= clock_spec(*p));
    }
    r
}

/// Relies on chrono: `Local::now` for the current local time, and its
/// `Datelike` and `Timelike` accessors, whose documented ranges are days
/// from Sunday 0 to 6 (`Weekday::num_days_from_sunday`), month 1 to 12,
/// day of month 1 to 31, hour 0 to 23 and minute 0 to 59.
#[verifier::external_body]
fn now_parts() -> (p: ClockParts)
    ensures
        p.wf(),
{
    let now = chrono::Local::now();
    ClockParts {
        weekday: chrono::Datelike::weekday(&now).num_days_from_sunday() as u8,
        month: chrono::Datelike::month(&now) as u8,
        day: chrono::Datelike::day(&now) as u8,
        hour: chrono::Timelike::hour(&now) as u8,
        minute: chrono::Timelike::minute(&now) as u8,
    }
}

/// The current local time, formatted: whatever instant the clock returned,
/// the result is its well-formed fields rendered by `clock_spec`.
pub fn get_date() -> (r: String)
    ensures
        exists|p: ClockParts| #![auto] p.wf() && r@ == clock_spec(p),
{
    let p = now_parts();
    let r = format_clock(&p);
    proof {
        assert(p.wf() && r@ == clock_spec(p));
    }
    r
}

} // verus!
