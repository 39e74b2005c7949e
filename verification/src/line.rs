//! The line formatter: joins the three fragments with the leading clock
//! glyph and the fixed separators into the one status line.

use vstd::prelude::*;
use vstd::string::StringExecFns;
use crate::errors::StatusError;
use crate::power::{battery_fragment, battery_fragment_spec, BatteryReading};
use crate::volume::{get_volume, get_volume_spec, CommandOutput};

verus! {

/// The full status line: the clock glyph, the date, the volume fragment and
/// the battery fragment, joined by the fixed separators.
pub open spec fn status_line_spec(date: Seq<char>, volume: Seq<char>, battery: Seq<char>) -> Seq<
    char,
> {
    "\u{f017}  "@ + date + " | "@ + volume + "  | "@ + battery + " "@
}

/// Joins the three fragments into the status line by plain concatenation.
pub fn format_status_line(date: &str, volume: &str, battery: &str) -> (r: String)
    ensures
        r@ == status_line_spec(date@, volume@, battery@),
{
    let mut r = String::from_str("\u{f017}  ");
    r.append(date);
    r.append(" | ");
    r.append(volume);
    r.append("  | ");
    r.append(battery);
    r.append(" ");
    r
}

/// The whole pipeline after the reads: renders the battery fragment, runs
/// the volume reader on the mixer outputs, and joins the fragments with the
/// date. A missing battery device still yields a full line; the first
/// volume error aborts the line instead.
pub fn build_status_line(
    date: &str,
    battery: Option<BatteryReading>,
    vol: CommandOutput,
    mute: CommandOutput,
) -> (r: Result<String, StatusError>)
    ensures
        ({
            let vs = get_volume_spec(vol.success, vol.stdout@, mute.success, mute.stdout@);
            &&& (r is Ok <==> vs is Ok)
            &&& (r matches Ok(l) ==> vs matches Ok(vf) && l@ == status_line_spec(
                date@,
                vf,
                battery_fragment_spec(battery),
            ))
            &&& (r matches Err(e) ==> vs matches Err(e2) && e == e2)
        }),
{
    let bat = battery_fragment(battery);
    match get_volume(vol, mute) {
        Err(e) => Err(e),
        Ok(vf) => Ok(format_status_line(date, vf.as_str(), bat.as_str())),
    }
}

} // verus!
