use chrono::Datelike;
use clipvault::models::Rgb;
use clipvault::utils::formatting::{
    color32_to_hex, decimal, format_timestamp, hex_digit, hex_pair, hex_to_color32,
    ordinal_suffix, shown_stamp, signed_decimal, stamp_text, LocalStamp, FIRST_SECOND,
    HOUR_PATTERN, LAST_SECOND, MERIDIEM_PATTERN, MINUTE_PATTERN, MONTH_PATTERN, YEAR_PATTERN,
};
use clipvault::utils::text::{blank, white_space};

#[test]
fn hex_colours_are_read() {
    assert_eq!(hex_to_color32("#FF8000"), Some(Rgb { r: 255, g: 128, b: 0 }));
    assert_eq!(hex_to_color32("#ff8000"), Some(Rgb { r: 255, g: 128, b: 0 }));
    assert_eq!(hex_to_color32("#000000"), Some(Rgb { r: 0, g: 0, b: 0 }));
    assert_eq!(hex_to_color32("#aBcDeF"), Some(Rgb { r: 0xAB, g: 0xCD, b: 0xEF }));
    assert_eq!(hex_to_color32("#CCCCCC"), Some(Rgb { r: 204, g: 204, b: 204 }));
}

#[test]
fn texts_that_are_no_colour_are_refused() {
    assert_eq!(hex_to_color32(""), None);
    assert_eq!(hex_to_color32("#"), None);
    assert_eq!(hex_to_color32("FF8000"), None);
    assert_eq!(hex_to_color32("FF80000"), None);
    assert_eq!(hex_to_color32("#FF800"), None);
    assert_eq!(hex_to_color32("#FF80000"), None);
    assert_eq!(hex_to_color32("#GG8000"), None);
    assert_eq!(hex_to_color32("#FF80 0"), None);
    assert_eq!(hex_to_color32("#-18000"), None);
    assert_eq!(hex_to_color32("#FF800+"), None);
    assert_eq!(hex_to_color32("#\u{e9}1234"), None);
    assert_eq!(hex_to_color32("#\u{e9}12345"), None);
    assert_eq!(hex_to_color32("#a\u{e9}234"), None);
    assert_eq!(hex_to_color32("\u{ff03}FF8000"), None);
}

#[test]
fn plus_sign_before_one_digit_is_read_as_the_standard_parser_does() {
    assert_eq!(hex_to_color32("#+f+a+0"), Some(Rgb { r: 15, g: 10, b: 0 }));
    assert_eq!(Some(15), u8::from_str_radix("+f", 16).ok());
    assert_eq!(hex_pair('+', 'f'), u8::from_str_radix("+f", 16).ok());
    assert_eq!(hex_pair('+', '+'), u8::from_str_radix("++", 16).ok());
    assert_eq!(hex_pair('f', '+'), u8::from_str_radix("f+", 16).ok());
    assert_eq!(hex_pair('-', '1'), u8::from_str_radix("-1", 16).ok());
}

#[test]
fn pairs_agree_with_the_standard_parser_on_every_ascii_pair() {
    for high in 0u8..128 {
        for low in 0u8..128 {
            let text = format!("{}{}", high as char, low as char);
            assert_eq!(hex_pair(high as char, low as char), u8::from_str_radix(&text, 16).ok());
        }
    }
}

#[test]
fn hex_digits() {
    assert_eq!(hex_digit('0'), Some(0));
    assert_eq!(hex_digit('9'), Some(9));
    assert_eq!(hex_digit('a'), Some(10));
    assert_eq!(hex_digit('F'), Some(15));
    assert_eq!(hex_digit('g'), None);
    assert_eq!(hex_digit('/'), None);
    assert_eq!(hex_digit(':'), None);
    assert_eq!(hex_digit('@'), None);
    assert_eq!(hex_digit('`'), None);
}

#[test]
fn colours_are_written_in_upper_case() {
    assert_eq!(color32_to_hex(Rgb { r: 255, g: 128, b: 0 }), "#FF8000");
    assert_eq!(color32_to_hex(Rgb { r: 0, g: 0, b: 0 }), "#000000");
    assert_eq!(color32_to_hex(Rgb { r: 1, g: 2, b: 3 }), "#010203");
    assert_eq!(color32_to_hex(Rgb { r: 0xAB, g: 0xCD, b: 0xEF }), "#ABCDEF");
    assert_eq!(color32_to_hex(Rgb::new(171, 205, 239)), format!("#{:02X}{:02X}{:02X}", 171, 205, 239));
}

#[test]
fn written_colour_is_read_back() {
    for v in 0u16..256 {
        let v = v as u8;
        let color = Rgb { r: v, g: v.wrapping_mul(7), b: 255 - v };
        assert_eq!(hex_to_color32(&color32_to_hex(color)), Some(color));
    }
}

#[test]
fn ordinal_suffixes() {
    assert_eq!(ordinal_suffix(1), "st");
    assert_eq!(ordinal_suffix(2), "nd");
    assert_eq!(ordinal_suffix(3), "rd");
    assert_eq!(ordinal_suffix(4), "th");
    assert_eq!(ordinal_suffix(10), "th");
    assert_eq!(ordinal_suffix(11), "th");
    assert_eq!(ordinal_suffix(12), "th");
    assert_eq!(ordinal_suffix(13), "th");
    assert_eq!(ordinal_suffix(14), "th");
    assert_eq!(ordinal_suffix(20), "th");
    assert_eq!(ordinal_suffix(21), "st");
    assert_eq!(ordinal_suffix(22), "nd");
    assert_eq!(ordinal_suffix(23), "rd");
    assert_eq!(ordinal_suffix(30), "th");
    assert_eq!(ordinal_suffix(31), "st");
    assert_eq!(ordinal_suffix(111), "st");
    assert_eq!(ordinal_suffix(0), "th");
}

#[test]
fn numbers_in_decimal() {
    assert_eq!(decimal(0), "0");
    assert_eq!(decimal(7), "7");
    assert_eq!(decimal(10), "10");
    assert_eq!(decimal(31), "31");
    assert_eq!(decimal(1234567890), "1234567890");
    assert_eq!(decimal(u64::MAX), u64::MAX.to_string());
    assert_eq!(signed_decimal(0), "0");
    assert_eq!(signed_decimal(42), "42");
    assert_eq!(signed_decimal(-5), "-5");
    assert_eq!(signed_decimal(i64::MAX), i64::MAX.to_string());
    assert_eq!(signed_decimal(i64::MIN), i64::MIN.to_string());
}

#[test]
fn stamps_are_written_for_the_reader() {
    let stamp = LocalStamp {
        month: "August".to_string(),
        day: 3,
        year: "2025".to_string(),
        hour: "9".to_string(),
        minute: "05".to_string(),
        meridiem: "PM".to_string(),
    };
    assert_eq!(stamp_text(&stamp), "August 3rd, 2025 9:05 PM");
    let stamp = LocalStamp {
        month: "December".to_string(),
        day: 12,
        year: "1999".to_string(),
        hour: "12".to_string(),
        minute: "00".to_string(),
        meridiem: "AM".to_string(),
    };
    assert_eq!(stamp_text(&stamp), "December 12th, 1999 12:00 AM");
    assert_eq!(shown_stamp(Some(stamp)), "December 12th, 1999 12:00 AM");
    assert_eq!(shown_stamp(None), "Invalid timestamp");
}

#[test]
fn timestamps_are_written_in_local_time() {
    for ts in [0i64, 1755048970, 951782400, -86400 * 365, 4102444800] {
        let at = chrono::DateTime::from_timestamp(ts, 0).unwrap().with_timezone(&chrono::Local);
        let day = at.day();
        let suffix = match day {
            1 | 21 | 31 => "st",
            2 | 22 => "nd",
            3 | 23 => "rd",
            _ => "th",
        };
        let expected = format!(
            "{} {}{}, {} {}:{} {}",
            at.format("%B"),
            day,
            suffix,
            at.format("%Y"),
            at.format("%-I"),
            at.format("%M"),
            at.format("%p")
        );
        assert_eq!(format_timestamp(ts), expected);
    }
}

#[test]
fn patterns_of_the_pieces() {
    assert_eq!(
        (MONTH_PATTERN, YEAR_PATTERN, HOUR_PATTERN, MINUTE_PATTERN, MERIDIEM_PATTERN),
        ("%B", "%Y", "%-I", "%M", "%p")
    );
}

#[test]
fn timestamps_out_of_range_are_invalid() {
    assert_eq!(format_timestamp(i64::MAX), "Invalid timestamp");
    assert_eq!(format_timestamp(i64::MIN), "Invalid timestamp");
    assert_eq!(format_timestamp(LAST_SECOND + 1), "Invalid timestamp");
    assert_eq!(format_timestamp(FIRST_SECOND - 1), "Invalid timestamp");
}

#[test]
fn the_clock_names_every_second_of_its_range() {
    assert_eq!(FIRST_SECOND, -8_334_601_228_800);
    assert_eq!(LAST_SECOND, 8_210_266_876_799);
    assert!(chrono::DateTime::from_timestamp(FIRST_SECOND, 0).is_some());
    assert!(chrono::DateTime::from_timestamp(FIRST_SECOND - 1, 0).is_none());
    assert!(chrono::DateTime::from_timestamp(LAST_SECOND, 0).is_some());
    assert!(chrono::DateTime::from_timestamp(LAST_SECOND + 1, 0).is_none());
    assert_eq!(chrono::DateTime::from_timestamp(FIRST_SECOND, 0), Some(chrono::DateTime::<chrono::Utc>::MIN_UTC));
    for ts in [FIRST_SECOND, FIRST_SECOND + 1, -1, 0, 1, LAST_SECOND - 1, LAST_SECOND] {
        assert!(format_timestamp(ts) != "Invalid timestamp");
    }
}

#[test]
fn white_space_agrees_with_the_standard_library_on_every_character() {
    let mut n: u32 = 0;
    while n <= 0x10FFFF {
        if let Some(c) = char::from_u32(n) {
            assert_eq!(white_space(c), c.is_whitespace());
        }
        n += 1;
    }
}

#[test]
fn blank_texts() {
    assert!(blank(""));
    assert!(blank(" "));
    assert!(blank(" \t\r\n\u{0b}\u{0c}\u{85}\u{a0}\u{1680}\u{2003}\u{2028}\u{2029}\u{202f}\u{205f}\u{3000}"));
    assert!(!blank("a"));
    assert!(!blank("  a  "));
    assert!(!blank("\u{200b}"));
    assert!(!blank("\u{180e}"));
    for text in ["", " ", "x", " x ", "\t\n", "\u{feff}", "\u{2000}\u{200a}", "\u{1c}"] {
        assert_eq!(blank(text), text.trim().is_empty());
    }
}
