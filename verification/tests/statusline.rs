use statusline::clock::{format_clock, get_date, ClockParts};
use statusline::errors::StatusError;
use statusline::line::{build_status_line, format_status_line};
use statusline::power::{
    battery_fragment, get_battery_charge_icon, get_battery_state_icon, BatteryReading, BatteryState,
};
use statusline::text::{is_literal_true, parse_u8, trim, u8_decimal};
use statusline::volume::{get_volume, volume_icon, CommandOutput};

fn output(success: bool, stdout: &[u8]) -> CommandOutput {
    CommandOutput { success, stdout: stdout.to_vec() }
}

#[test]
fn test_get_battery_charge_icon() {
    assert_eq!(get_battery_charge_icon(95), "\u{f0079}");
    assert_eq!(get_battery_charge_icon(85), "\u{f0082}");
    assert_eq!(get_battery_charge_icon(75), "\u{f0081}");
    assert_eq!(get_battery_charge_icon(65), "\u{f0080}");
    assert_eq!(get_battery_charge_icon(55), "\u{f007f}");
    assert_eq!(get_battery_charge_icon(45), "\u{f007e}");
    assert_eq!(get_battery_charge_icon(35), "\u{f007d}");
    assert_eq!(get_battery_charge_icon(25), "\u{f007c}");
    assert_eq!(get_battery_charge_icon(15), "\u{f007b}");
    assert_eq!(get_battery_charge_icon(5), "\u{f007a}");
}

#[test]
fn test_get_battery_state_icon() {
    assert_eq!(get_battery_state_icon(BatteryState::Charging).unwrap(), "\u{f140b}");
    assert!(get_battery_state_icon(BatteryState::Discharging).is_none());
}

#[test]
fn charge_icon_band_boundaries_are_strict() {
    assert_eq!(get_battery_charge_icon(91), "\u{f0079}");
    assert_eq!(get_battery_charge_icon(90), "\u{f0082}");
    assert_eq!(get_battery_charge_icon(81), "\u{f0082}");
    assert_eq!(get_battery_charge_icon(80), "\u{f0081}");
    assert_eq!(get_battery_charge_icon(71), "\u{f0081}");
    assert_eq!(get_battery_charge_icon(70), "\u{f0080}");
    assert_eq!(get_battery_charge_icon(61), "\u{f0080}");
    assert_eq!(get_battery_charge_icon(60), "\u{f007f}");
    assert_eq!(get_battery_charge_icon(51), "\u{f007f}");
    assert_eq!(get_battery_charge_icon(50), "\u{f007e}");
    assert_eq!(get_battery_charge_icon(41), "\u{f007e}");
    assert_eq!(get_battery_charge_icon(40), "\u{f007d}");
    assert_eq!(get_battery_charge_icon(31), "\u{f007d}");
    assert_eq!(get_battery_charge_icon(30), "\u{f007c}");
    assert_eq!(get_battery_charge_icon(21), "\u{f007c}");
    assert_eq!(get_battery_charge_icon(20), "\u{f007b}");
    assert_eq!(get_battery_charge_icon(11), "\u{f007b}");
    assert_eq!(get_battery_charge_icon(10), "\u{f007a}");
    assert_eq!(get_battery_charge_icon(1), "\u{f007a}");
    assert_eq!(get_battery_charge_icon(0), "\u{f007a}");
    assert_eq!(get_battery_charge_icon(100), "\u{f0079}");
}

#[test]
fn state_icon_for_every_state() {
    assert_eq!(get_battery_state_icon(BatteryState::Charging).unwrap(), "\u{f140b}");
    assert!(get_battery_state_icon(BatteryState::Unknown).is_none());
    assert!(get_battery_state_icon(BatteryState::Empty).is_none());
    assert!(get_battery_state_icon(BatteryState::Full).is_none());
}

#[test]
fn battery_fragment_without_device_is_ok() {
    assert_eq!(battery_fragment(None), "ok");
}

#[test]
fn battery_fragment_full_charging() {
    let b = BatteryReading { charge: 100, state: BatteryState::Charging };
    assert_eq!(battery_fragment(Some(b)), "100% \u{f0079}\u{f140b}");
}

#[test]
fn battery_fragment_discharging_has_no_state_icon() {
    let b = BatteryReading { charge: 42, state: BatteryState::Discharging };
    assert_eq!(battery_fragment(Some(b)), "42% \u{f007e}");
}

#[test]
fn battery_fragment_round_trip() {
    let b = BatteryReading { charge: 47, state: BatteryState::Charging };
    let s = battery_fragment(Some(b));
    let cut = s.find('%').unwrap();
    let charge: u8 = s[..cut].parse().unwrap();
    assert_eq!(charge, 47);
    assert!(s.ends_with('\u{f140b}'));

    let b = BatteryReading { charge: 8, state: BatteryState::Full };
    let s = battery_fragment(Some(b));
    let cut = s.find('%').unwrap();
    let charge: u8 = s[..cut].parse().unwrap();
    assert_eq!(charge, 8);
    assert!(!s.ends_with('\u{f140b}'));
}

#[test]
fn mute_has_priority_over_volume() {
    assert_eq!(volume_icon(true, 99), "\u{eee8}");
    assert_eq!(volume_icon(true, 0), "\u{eee8}");
    let r = get_volume(output(true, b"99\n"), output(true, b"true\n"));
    assert_eq!(r.unwrap(), "99% \u{eee8}");
}

#[test]
fn volume_bands() {
    assert_eq!(volume_icon(false, 51), "\u{f028}");
    assert_eq!(volume_icon(false, 50), "\u{f027}");
    assert_eq!(volume_icon(false, 1), "\u{f027}");
    assert_eq!(volume_icon(false, 0), "\u{f026}");
}

#[test]
fn volume_fragment_keeps_raw_trimmed_text() {
    let r = get_volume(output(true, b"+55\n"), output(true, b"false\n"));
    assert_eq!(r.unwrap(), "+55% \u{f028}");
}

#[test]
fn volume_command_failure() {
    let r = get_volume(output(false, b""), output(true, b"false\n"));
    assert_eq!(r.unwrap_err(), StatusError::CommandFailed);
    let r = get_volume(output(true, b"55\n"), output(false, b""));
    assert_eq!(r.unwrap_err(), StatusError::CommandFailed);
}

#[test]
fn volume_output_not_utf8() {
    let r = get_volume(output(true, b"\xff\xfe"), output(true, b"false\n"));
    assert_eq!(r.unwrap_err(), StatusError::OutputNotUtf8);
    let r = get_volume(output(true, b"55\n"), output(true, b"\xff"));
    assert_eq!(r.unwrap_err(), StatusError::OutputNotUtf8);
}

#[test]
fn volume_parse_error() {
    let r = get_volume(output(true, b"loud\n"), output(true, b"false\n"));
    assert_eq!(r.unwrap_err(), StatusError::VolumeParseError);
    let r = get_volume(output(true, b"300\n"), output(true, b"false\n"));
    assert_eq!(r.unwrap_err(), StatusError::VolumeParseError);
}

#[test]
fn unrecognized_mute_text_is_not_muted() {
    let r = get_volume(output(true, b"30\n"), output(true, b"maybe\n"));
    assert_eq!(r.unwrap(), "30% \u{f027}");
}

#[test]
fn parse_u8_cases() {
    assert_eq!(parse_u8("0"), Some(0));
    assert_eq!(parse_u8("55"), Some(55));
    assert_eq!(parse_u8("+55"), Some(55));
    assert_eq!(parse_u8("255"), Some(255));
    assert_eq!(parse_u8("256"), None);
    assert_eq!(parse_u8("999999999999"), None);
    assert_eq!(parse_u8(""), None);
    assert_eq!(parse_u8("+"), None);
    assert_eq!(parse_u8("5a"), None);
    assert_eq!(parse_u8("-5"), None);
}

#[test]
fn trim_cases() {
    assert_eq!(trim("  55 \n"), "55");
    assert_eq!(trim("true\n"), "true");
    assert_eq!(trim(""), "");
    assert_eq!(trim(" \t\r\n"), "");
    assert_eq!(trim("a b"), "a b");
}

#[test]
fn u8_decimal_cases() {
    assert_eq!(u8_decimal(0), "0");
    assert_eq!(u8_decimal(7), "7");
    assert_eq!(u8_decimal(10), "10");
    assert_eq!(u8_decimal(55), "55");
    assert_eq!(u8_decimal(100), "100");
    assert_eq!(u8_decimal(255), "255");
}

#[test]
fn is_literal_true_cases() {
    assert!(is_literal_true("true"));
    assert!(!is_literal_true("false"));
    assert!(!is_literal_true("True"));
    assert!(!is_literal_true("true "));
}

#[test]
fn clock_format_concrete() {
    let p = ClockParts { weekday: 1, month: 1, day: 2, hour: 15, minute: 4 };
    assert_eq!(format_clock(&p), "Mon Jan 02 - 03:04 PM");
    let p = ClockParts { weekday: 0, month: 12, day: 31, hour: 0, minute: 0 };
    assert_eq!(format_clock(&p), "Sun Dec 31 - 12:00 AM");
    let p = ClockParts { weekday: 6, month: 6, day: 9, hour: 12, minute: 59 };
    assert_eq!(format_clock(&p), "Sat Jun 09 - 12:59 PM");
}

#[test]
fn get_date_looks_like_a_clock_line() {
    let d = get_date();
    assert!(d.contains(" - "));
    assert!(d.ends_with("AM") || d.ends_with("PM"));
}

#[test]
fn status_line_joins_fragments() {
    let l = format_status_line("Mon Jan 02 - 03:04 PM", "55% \u{f028}", "ok");
    assert_eq!(l, "\u{f017}  Mon Jan 02 - 03:04 PM | 55% \u{f028}  | ok ");
}

#[test]
fn full_line_with_no_battery_device() {
    let r = build_status_line(
        "Mon Jan 02 - 03:04 PM",
        None,
        output(true, b"55\n"),
        output(true, b"false\n"),
    );
    assert_eq!(
        r.unwrap(),
        "\u{f017}  Mon Jan 02 - 03:04 PM | 55% \u{f028}  | ok "
    );
}

#[test]
fn full_line_with_charging_battery() {
    let b = BatteryReading { charge: 100, state: BatteryState::Charging };
    let r = build_status_line(
        "Mon Jan 02 - 03:04 PM",
        Some(b),
        output(true, b"30\n"),
        output(true, b"true\n"),
    );
    assert_eq!(
        r.unwrap(),
        "\u{f017}  Mon Jan 02 - 03:04 PM | 30% \u{eee8}  | 100% \u{f0079}\u{f140b} "
    );
}

#[test]
fn failed_volume_command_aborts_the_line() {
    let r = build_status_line("Mon Jan 02 - 03:04 PM", None, output(false, b""), output(true, b"false\n"));
    assert_eq!(r.unwrap_err(), StatusError::CommandFailed);
}
