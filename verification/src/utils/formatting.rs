//! Colours written as `#RRGGBB`, and timestamps written for the reader.

use vstd::prelude::*;
use vstd::string::{StrSliceExecFns, StringExecFns};
use chrono::Datelike;
use crate::models::color::Rgb;

verus! {

/// The value of a hexadecimal digit, in either case; `None` for any other
/// character.
pub open spec fn hex_digit_value(c: char) -> Option<int> {
    if '0' <= c <= '9' {
        Some(c as int - '0' as int)
    } else if 'a' <= c <= 'f' {
        Some(c as int - 'a' as int + 10)
    } else if 'A' <= c <= 'F' {
        Some(c as int - 'A' as int + 10)
    } else {
        None
    }
}

/// The value of a channel written as two characters: two hexadecimal digits,
/// or a plus sign and one digit, which the standard integer parser reads as
/// that digit.
pub open spec fn hex_pair_value(high: char, low: char) -> Option<int> {
    match hex_digit_value(low) {
        Some(l) => match hex_digit_value(high) {
            Some(h) => Some(16 * h + l),
            None => if high == '+' {
                Some(l)
            } else {
                None
            },
        },
        None => None,
    }
}

/// The colour that a text names: a number sign and three channels of two
/// characters each, seven characters in all; `None` for any other text.
pub open spec fn parsed_hex_color(s: Seq<char>) -> Option<Rgb> {
    if s.len() == 7 && s[0] == '#' && hex_pair_value(s[1], s[2]) is Some && hex_pair_value(
        s[3],
        s[4],
    ) is Some && hex_pair_value(s[5], s[6]) is Some {
        Some(
            Rgb {
                r: hex_pair_value(s[1], s[2])->Some_0 as u8,
                g: hex_pair_value(s[3], s[4])->Some_0 as u8,
                b: hex_pair_value(s[5], s[6])->Some_0 as u8,
            },
        )
    } else {
        None
    }
}

/// The value of a hexadecimal digit.
pub fn hex_digit(c: char) -> (r: Option<u8>)
    ensures
        r is Some <==> hex_digit_value(c) is Some,
        r matches Some(v) ==> v == hex_digit_value(c)->Some_0 && v < 16,
{
    if '0' <= c && c <= '9' {
        Some((c as u32 - '0' as u32) as u8)
    } else if 'a' <= c && c <= 'f' {
        Some((c as u32 - 'a' as u32 + 10) as u8)
    } else if 'A' <= c && c <= 'F' {
        Some((c as u32 - 'A' as u32 + 10) as u8)
    } else {
        None
    }
}

/// The value of a channel written as two characters.
pub fn hex_pair(high: char, low: char) -> (r: Option<u8>)
    ensures
        r is Some <==> hex_pair_value(high, low) is Some,
        r matches Some(v) ==> v == hex_pair_value(high, low)->Some_0,
{
    match hex_digit(low) {
        Some(l) => match hex_digit(high) {
            Some(h) => Some(16 * h + l),
            None => if high == '+' {
                Some(l)
            } else {
                None
            },
        },
        None => None,
    }
}

/// Reads a colour written as `#RRGGBB`.
pub fn hex_to_color32(hex: &str) -> (color: Option<Rgb>)
    ensures
        color == parsed_hex_color(hex@),
{
    if hex.unicode_len() != 7 {
        return None;
    }
    if hex.get_char(0) != '#' {
        return None;
    }
    let r = match hex_pair(hex.get_char(1), hex.get_char(2)) {
        Some(v) => v,
        None => {
            return None;
        },
    };
    let g = match hex_pair(hex.get_char(3), hex.get_char(4)) {
        Some(v) => v,
        None => {
            return None;
        },
    };
    let b = match hex_pair(hex.get_char(5), hex.get_char(6)) {
        Some(v) => v,
        None => {
            return None;
        },
    };
    Some(Rgb { r, g, b })
}

/// The upper-case hexadecimal digit for a value below sixteen.
pub open spec fn upper_hex_char(n: int) -> char {
    if n < 10 {
        ('0' as int + n) as char
    } else {
        ('A' as int + n - 10) as char
    }
}

/// A colour written as `#RRGGBB`, in upper case.
pub open spec fn hex_text(color: Rgb) -> Seq<char> {
    seq![
        '#',
        upper_hex_char(color.r as int / 16),
        upper_hex_char(color.r as int % 16),
        upper_hex_char(color.g as int / 16),
        upper_hex_char(color.g as int % 16),
        upper_hex_char(color.b as int / 16),
        upper_hex_char(color.b as int % 16),
    ]
}

/// The upper-case hexadecimal digit for `n`, as a text of one character.
fn upper_hex_digit(n: u8) -> (s: &'static str)
    requires
        n < 16,
    ensures
        s@ == seq![upper_hex_char(n as int)],
{
    proof {
        reveal_strlit("0");
        reveal_strlit("1");
        reveal_strlit("2");
        reveal_strlit("3");
        reveal_strlit("4");
        reveal_strlit("5");
        reveal_strlit("6");
        reveal_strlit("7");
        reveal_strlit("8");
        reveal_strlit("9");
        reveal_strlit("A");
        reveal_strlit("B");
        reveal_strlit("C");
        reveal_strlit("D");
        reveal_strlit("E");
        reveal_strlit("F");
    }
    let s = match n {
        0 => "0",
        1 => "1",
        2 => "2",
        3 => "3",
        4 => "4",
        5 => "5",
        6 => "6",
        7 => "7",
        8 => "8",
        9 => "9",
        10 => "A",
        11 => "B",
        12 => "C",
        13 => "D",
        14 => "E",
        _ => "F",
    };
    assert(s@ =~= seq![upper_hex_char(n as int)]);
    s
}

/// Writes a colour as `#RRGGBB`, in upper case.
pub fn color32_to_hex(color: Rgb) -> (hex: String)
    ensures
        hex@ == hex_text(color),
{
    proof {
        reveal_strlit("#");
    }
    let mut hex = String::from_str("#");
    hex.append(upper_hex_digit(color.r / 16));
    hex.append(upper_hex_digit(color.r % 16));
    hex.append(upper_hex_digit(color.g / 16));
    hex.append(upper_hex_digit(color.g % 16));
    hex.append(upper_hex_digit(color.b / 16));
    hex.append(upper_hex_digit(color.b % 16));
    assert(hex@ =~= hex_text(color));
    hex
}

/// A colour that is written and read again is the same colour.
pub proof fn lemma_hex_round_trip(color: Rgb)
    ensures
        parsed_hex_color(hex_text(color)) == Some(color),
{
    let s = hex_text(color);
    assert forall|n: int| 0 <= n < 16 implies hex_digit_value(#[trigger] upper_hex_char(n))
        == Some(n) by {}
    assert(hex_pair_value(s[1], s[2]) == Some(color.r as int));
    assert(hex_pair_value(s[3], s[4]) == Some(color.g as int));
    assert(hex_pair_value(s[5], s[6]) == Some(color.b as int));
}

/// The ending of an ordinal: "th" for 11, 12 and 13, and else by the last
/// digit, "st" for 1, "nd" for 2, "rd" for 3 and "th" for the rest.
pub open spec fn ordinal_suffix_of(day: u32) -> Seq<char> {
    if day == 11 || day == 12 || day == 13 {
        "th"@
    } else if day % 10 == 1 {
        "st"@
    } else if day % 10 == 2 {
        "nd"@
    } else if day % 10 == 3 {
        "rd"@
    } else {
        "th"@
    }
}

/// The ending of the ordinal of `day`.
pub fn ordinal_suffix(day: u32) -> (suffix: &'static str)
    ensures
        suffix@ == ordinal_suffix_of(day),
{
    if day == 11 || day == 12 || day == 13 {
        "th"
    } else if day % 10 == 1 {
        "st"
    } else if day % 10 == 2 {
        "nd"
    } else if day % 10 == 3 {
        "rd"
    } else {
        "th"
    }
}

/// The decimal digits of a number, without leading zeros.
pub open spec fn decimal_text(n: nat) -> Seq<char>
    decreases n,
{
    if n < 10 {
        seq![upper_hex_char(n as int)]
    } else {
        decimal_text(n / 10).push(upper_hex_char((n % 10) as int))
    }
}

/// Writes a number in decimal.
pub fn decimal(n: u64) -> (text: String)
    ensures
        text@ == decimal_text(n as nat),
    decreases n,
{
    if n < 10 {
        String::from_str(upper_hex_digit(n as u8))
    } else {
        let mut text = decimal(n / 10);
        text.append(upper_hex_digit((n % 10) as u8));
        assert(text@ =~= decimal_text(n as nat));
        text
    }
}

/// The decimal digits of a number with a minus sign before them where it is
/// negative.
pub open spec fn signed_decimal_text(n: int) -> Seq<char> {
    if n < 0 {
        "-"@ + decimal_text((-n) as nat)
    } else {
        decimal_text(n as nat)
    }
}

/// Writes a signed number in decimal.
pub fn signed_decimal(n: i64) -> (text: String)
    ensures
        text@ == signed_decimal_text(n as int),
{
    if n < 0 {
        let magnitude: u64 = ((-(n + 1)) as u64) + 1;
        String::from_str("-").concat(decimal(magnitude).as_str())
    } else {
        decimal(n as u64)
    }
}

/// An instant as the local clock shows it, in the pieces that make up its
/// text: the month as [`MONTH_PATTERN`] writes it, the day of the month, the
/// year by [`YEAR_PATTERN`], the hour by [`HOUR_PATTERN`], the minute by
/// [`MINUTE_PATTERN`], and AM or PM by [`MERIDIEM_PATTERN`].
pub struct LocalStamp {
    pub month: String,
    pub day: u32,
    pub year: String,
    pub hour: String,
    pub minute: String,
    pub meridiem: String,
}

/// The text of a local instant: month, day with its ordinal ending, a comma,
/// the year, then hour, colon, minute, and AM or PM.
pub open spec fn stamp_text_of(stamp: LocalStamp) -> Seq<char> {
    stamp.month@ + " "@ + decimal_text(stamp.day as nat) + ordinal_suffix_of(stamp.day) + ", "@
        + stamp.year@ + " "@ + stamp.hour@ + ":"@ + stamp.minute@ + " "@ + stamp.meridiem@
}

/// Writes a local instant, as in "August 3rd, 2025 9:05 PM".
pub fn stamp_text(stamp: &LocalStamp) -> (text: String)
    ensures
        text@ == stamp_text_of(*stamp),
{
    let mut text = stamp.month.clone();
    text.append(" ");
    text.append(decimal(stamp.day as u64).as_str());
    text.append(ordinal_suffix(stamp.day));
    text.append(", ");
    text.append(stamp.year.as_str());
    text.append(" ");
    text.append(stamp.hour.as_str());
    text.append(":");
    text.append(stamp.minute.as_str());
    text.append(" ");
    text.append(stamp.meridiem.as_str());
    text
}

/// The first second that the clock can name: the start of the year -262143.
pub const FIRST_SECOND: i64 = -8_334_601_228_800;

/// The last second that the clock can name: the end of the year 262142.
pub const LAST_SECOND: i64 = 8_210_266_876_799;

/// Whether the clock can name the second.
pub open spec fn clock_names(timestamp: i64) -> bool {
    FIRST_SECOND <= timestamp <= LAST_SECOND
}

/// The pattern of the month's full name.
pub const MONTH_PATTERN: &'static str = "%B";

/// The pattern of the year.
pub const YEAR_PATTERN: &'static str = "%Y";

/// The pattern of the hour of a twelve-hour clock, without padding.
pub const HOUR_PATTERN: &'static str = "%-I";

/// The pattern of the minute, in two digits.
pub const MINUTE_PATTERN: &'static str = "%M";

/// The pattern of AM or PM.
pub const MERIDIEM_PATTERN: &'static str = "%p";

/// The given second, counted from the epoch, as the machine's local clock
/// shows it: `chrono::DateTime::from_timestamp`, moved to `chrono::Local` with
/// `chrono::DateTime::with_timezone`, then `chrono::Datelike::day` for the
/// day and `chrono::DateTime::format` with the pattern given for each other
/// piece. Only the five patterns of this file are admitted, each of which the
/// clock can write for every instant. `from_timestamp` goes by the seconds
/// alone and names every second from [`FIRST_SECOND`] to [`LAST_SECOND`]; the
/// move to local time does not fail. The pieces depend on the time zone;
/// promised of them is only what holds of every day of a month.
#[verifier::external_body]
fn local_stamp(
    timestamp: i64,
    month: &str,
    year: &str,
    hour: &str,
    minute: &str,
    meridiem: &str,
) -> (r: Option<LocalStamp>)
    requires
        month@ == MONTH_PATTERN@,
        year@ == YEAR_PATTERN@,
        hour@ == HOUR_PATTERN@,
        minute@ == MINUTE_PATTERN@,
        meridiem@ == MERIDIEM_PATTERN@,
    ensures
        r is Some <==> clock_names(timestamp),
        r matches Some(stamp) ==> 1 <= stamp.day <= 31,
{
    let at = chrono::DateTime::from_timestamp(timestamp, 0)?.with_timezone(&chrono::Local);
    Some(
        LocalStamp {
            month: at.format(month).to_string(),
            day: at.day(),
            year: at.format(year).to_string(),
            hour: at.format(hour).to_string(),
            minute: at.format(minute).to_string(),
            meridiem: at.format(meridiem).to_string(),
        },
    )
}

/// What is shown for an instant that the clock named, or did not name.
pub fn shown_stamp(stamp: Option<LocalStamp>) -> (text: String)
    ensures
        stamp matches Some(s) ==> text@ == stamp_text_of(s),
        stamp is None ==> text@ == "Invalid timestamp"@,
{
    match stamp {
        Some(s) => stamp_text(&s),
        None => String::from_str("Invalid timestamp"),
    }
}

/// Writes a timestamp, in seconds from the epoch, as local date and time; a
/// second that the clock cannot name is written as "Invalid timestamp".
pub fn format_timestamp(timestamp: i64) -> (text: String)
    ensures
        !clock_names(timestamp) ==> text@ == "Invalid timestamp"@,
        clock_names(timestamp) ==> exists|stamp: LocalStamp|
            1 <= stamp.day <= 31 && text@ == #[trigger] stamp_text_of(stamp),
{
    shown_stamp(
        local_stamp(
            timestamp,
            MONTH_PATTERN,
            YEAR_PATTERN,
            HOUR_PATTERN,
            MINUTE_PATTERN,
            MERIDIEM_PATTERN,
        ),
    )
}

} // verus!
