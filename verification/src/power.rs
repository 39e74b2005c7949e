//! The battery fragment: maps a charge percentage and a charging state to
//! display icons and renders `"<charge>% <charge-icon><state-icon>"`, or the
//! literal `"ok"` on a host with no battery device.

use vstd::prelude::*;
use vstd::string::*;
use crate::text::{all_digits, decimal_chars, digit_char, digit_val, digits_value, is_digit,
    u8_decimal};

verus! {

/// The charging state of a battery device.
#[derive(Clone, Copy, Debug, PartialEq, Eq, Structural)]
pub enum BatteryState {
    Unknown,
    Charging,
    Discharging,
    Empty,
    Full,
}

/// What the battery reader hands over: the charge as a whole percentage and
/// the charging state of the first enumerated device.
#[derive(Clone, Copy, Debug, PartialEq, Eq, Structural)]
pub struct BatteryReading {
    pub charge: u8,
    pub state: BatteryState,
}

/// The decile band a charge value falls in, from 0 (at most 10) to 9 (over
/// 90). Bands are ten points wide with strict greater-than lower bounds.
pub open spec fn charge_band(c: int) -> int {
    if c > 90 {
        9
    } else if c > 80 {
        8
    } else if c > 70 {
        7
    } else if c > 60 {
        6
    } else if c > 50 {
        5
    } else if c > 40 {
        4
    } else if c > 30 {
        3
    } else if c > 20 {
        2
    } else if c > 10 {
        1
    } else {
        0
    }
}

/// The icon character for each decile band.
pub open spec fn charge_icon_char(c: int) -> char {
    if c > 90 {
        '\u{f0079}'
    } else if c > 80 {
        '\u{f0082}'
    } else if c > 70 {
        '\u{f0081}'
    } else if c > 60 {
        '\u{f0080}'
    } else if c > 50 {
        '\u{f007f}'
    } else if c > 40 {
        '\u{f007e}'
    } else if c > 30 {
        '\u{f007d}'
    } else if c > 20 {
        '\u{f007c}'
    } else if c > 10 {
        '\u{f007b}'
    } else {
        '\u{f007a}'
    }
}

/// The charge icon is a strict, total, non-overlapping step function over
/// the ten decile bands: two charge values get the same icon exactly when
/// they fall in the same band, and the bands partition the integers with
/// strict greater-than boundaries.
pub proof fn lemma_charge_icon_deciles()
    ensures
        forall|c1: int, c2: int|
            #![trigger charge_icon_char(c1), charge_icon_char(c2)]
            (charge_icon_char(c1) == charge_icon_char(c2)) <==> (charge_band(c1) == charge_band(
                c2,
            )),
        forall|c: int| #![trigger charge_band(c)] 0 <= charge_band(c) <= 9,
        forall|c: int| #![trigger charge_band(c)] 10 < c <= 90 ==> charge_band(c) == (c - 1) / 10,
        forall|c: int| c <= 10 ==> #[trigger] charge_band(c) == 0,
        forall|c: int| c > 90 ==> #[trigger] charge_band(c) == 9,
{
}

/// The icon for the battery state: only a charging battery gets one.
pub open spec fn state_icon_spec(state: BatteryState) -> Option<Seq<char>> {
    match state {
        BatteryState::Charging => Some("\u{f140b}"@),
        _ => None,
    }
}

/// Only the charging state yields an icon, and a non-empty one; every other
/// state yields none.
pub proof fn lemma_state_icon()
    ensures
        state_icon_spec(BatteryState::Charging) is Some,
        state_icon_spec(BatteryState::Charging)->0.len() > 0,
        state_icon_spec(BatteryState::Unknown) is None,
        state_icon_spec(BatteryState::Discharging) is None,
        state_icon_spec(BatteryState::Empty) is None,
        state_icon_spec(BatteryState::Full) is None,
{
    reveal_strlit("\u{f140b}");
}

/// Selects the charge icon for a charge percentage by descending decile
/// bands with strict greater-than comparisons.
pub fn get_battery_charge_icon(charge: usize) -> (r: String)
    ensures
        r@ == seq![charge_icon_char(charge as int)],
{
    let icon: &'static str = if charge > 90 {
        "\u{f0079}"
    } else if charge > 80 {
        "\u{f0082}"
    } else if charge > 70 {
        "\u{f0081}"
    } else if charge > 60 {
        "\u{f0080}"
    } else if charge > 50 {
        "\u{f007f}"
    } else if charge > 40 {
        "\u{f007e}"
    } else if charge > 30 {
        "\u{f007d}"
    } else if charge > 20 {
        "\u{f007c}"
    } else if charge > 10 {
        "\u{f007b}"
    } else {
        "\u{f007a}"
    };
    proof {
        reveal_strlit("\u{f0079}");
        reveal_strlit("\u{f0082}");
        reveal_strlit("\u{f0081}");
        reveal_strlit("\u{f0080}");
        reveal_strlit("\u{f007f}");
        reveal_strlit("\u{f007e}");
        reveal_strlit("\u{f007d}");
        reveal_strlit("\u{f007c}");
        reveal_strlit("\u{f007b}");
        reveal_strlit("\u{f007a}");
        assert(icon@ =~= seq![charge_icon_char(charge as int)]);
    }
    String::from_str(icon)
}

/// Selects the state icon: a charging-specific icon when the state is
/// charging, nothing for every other state.
pub fn get_battery_state_icon(state: BatteryState) -> (r: Option<String>)
    ensures
        (r is Some) == (state_icon_spec(state) is Some),
        r matches Some(s) ==> s@ == state_icon_spec(state)->0,
{
    match state {
        BatteryState::Charging => Some(String::from_str("\u{f140b}")),
        _ => None,
    }
}

/// The battery fragment of the status line: `"ok"` when no battery device
/// exists, otherwise the charge percentage, the charge icon, and the state
/// icon when charging.
pub open spec fn battery_fragment_spec(reading: Option<BatteryReading>) -> Seq<char> {
    match reading {
        None => "ok"@,
        Some(b) => decimal_chars(b.charge as int) + "% "@ + seq![charge_icon_char(b.charge as int)]
            + (match state_icon_spec(b.state) {
            Some(icon) => icon,
            None => Seq::<char>::empty(),
        }),
    }
}

/// Renders the battery fragment from the reading, or `"ok"` when the host
/// has no battery device.
pub fn battery_fragment(reading: Option<BatteryReading>) -> (r: String)
    ensures
        r@ == battery_fragment_spec(reading),
{
    match reading {
        None => String::from_str("ok"),
        Some(b) => {
            let mut r = u8_decimal(b.charge);
            r.append("% ");
            let icon = get_battery_charge_icon(b.charge as usize);
            r.append(icon.as_str());
            match get_battery_state_icon(b.state) {
                Some(s) => {
                    r.append(s.as_str());
                },
                None => {},
            }
            proof {
                assert(r@ =~= battery_fragment_spec(reading));
            }
            r
        },
    }
}

/// Index of the first occurrence of a character, or -1 when it does not
/// occur.
pub open spec fn find_char(s: Seq<char>, c: char) -> int
    decreases s.len(),
{
    if s.len() == 0 {
        -1
    } else if s[0] == c {
        0
    } else if find_char(s.drop_first(), c) == -1 {
        -1
    } else {
        1 + find_char(s.drop_first(), c)
    }
}

proof fn lemma_find_char_concat(s1: Seq<char>, s2: Seq<char>, c: char)
    requires
        forall|i: int| 0 <= i < s1.len() ==> s1[i] != c,
        s2.len() > 0,
        s2[0] == c,
    ensures
        find_char(s1 + s2, c) == s1.len(),
    decreases s1.len(),
{
    if s1.len() == 0 {
        assert(s1 + s2 =~= s2);
    } else {
        let t = s1 + s2;
        assert(t[0] == s1[0]);
        assert(t.drop_first() =~= s1.drop_first() + s2);
        lemma_find_char_concat(s1.drop_first(), s2, c);
    }
}

proof fn lemma_decimal_chars_digits(n: int)
    requires
        n >= 0,
    ensures
        all_digits(decimal_chars(n)),
        decimal_chars(n).len() >= 1,
        digits_value(decimal_chars(n)) == n,
    decreases n,
{
    if n < 10 {
        let s = decimal_chars(n);
        assert(s == seq![digit_char(n)]);
        assert(digit_val(digit_char(n)) == n);
        assert(s.drop_last() =~= Seq::<char>::empty());
        assert(digits_value(Seq::<char>::empty()) == 0);
        assert(digits_value(s) == digits_value(s.drop_last()) * 10 + digit_val(s.last()));
    } else {
        lemma_decimal_chars_digits(n / 10);
        let p = decimal_chars(n / 10);
        let s = decimal_chars(n);
        assert(s == p.push(digit_char(n % 10)));
        assert(s.drop_last() =~= p);
        assert(digit_val(digit_char(n % 10)) == n % 10);
        assert(forall|i: int| 0 <= i < p.len() ==> s[i] == p[i]);
        assert(digits_value(s) == n);
    }
}

/// Re-parsing the battery fragment by prefix extraction: the decimal prefix
/// before the percent sign, and whether the fragment ends in the charging
/// icon.
pub open spec fn parse_battery_fragment_spec(s: Seq<char>) -> Option<(u8, bool)> {
    let p = find_char(s, '%');
    if p <= 0 {
        None
    } else {
        let digits = s.subrange(0, p);
        if all_digits(digits) && digits_value(digits) <= 255 {
            Some((digits_value(digits) as u8, s.last() == '\u{f140b}'))
        } else {
            None
        }
    }
}

/// Round trip: re-parsing the rendered battery fragment of any reading
/// recovers the charge percentage and the charging flag.
pub proof fn lemma_battery_fragment_round_trip(b: BatteryReading)
    ensures
        parse_battery_fragment_spec(battery_fragment_spec(Some(b))) == Some(
            (b.charge, b.state is Charging),
        ),
{
    reveal_strlit("% ");
    reveal_strlit("\u{f140b}");
    let digits = decimal_chars(b.charge as int);
    lemma_decimal_chars_digits(b.charge as int);
    let icon = seq![charge_icon_char(b.charge as int)];
    let suffix = match state_icon_spec(b.state) {
        Some(i) => i,
        None => Seq::<char>::empty(),
    };
    let s = battery_fragment_spec(Some(b));
    let rest = "% "@ + icon + suffix;
    assert(s =~= digits + rest);
    assert(forall|i: int| 0 <= i < digits.len() ==> is_digit(digits[i]));
    assert(forall|i: int| 0 <= i < digits.len() ==> digits[i] != '%') by {
        assert(digit_val('%') == -1);
    }
    assert(rest[0] == '%');
    lemma_find_char_concat(digits, rest, '%');
    let p = find_char(s, '%');
    assert(p == digits.len());
    assert(s.subrange(0, p) =~= digits);
    if b.state is Charging {
        assert(suffix.len() == 1 && suffix[0] == '\u{f140b}');
        assert(s.last() == '\u{f140b}');
    } else {
        assert(suffix.len() == 0);
        assert(s.last() == charge_icon_char(b.charge as int));
        assert(charge_icon_char(b.charge as int) != '\u{f140b}');
    }
}

} // verus!
