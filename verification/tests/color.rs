use specialfx::color::{format_rgba8, message_from_quoted, parse_rgba8, ParseColorError};

#[test]
fn parses_hex_forms() {
    assert_eq!(parse_rgba8("#fff").unwrap(), [255, 255, 255, 255]);
    assert_eq!(parse_rgba8("ff8000").unwrap(), [255, 128, 0, 255]);
    assert_eq!(parse_rgba8("#ff800040").unwrap(), [255, 128, 0, 64]);
    assert!(parse_rgba8("#ff80").is_err());
    assert!(parse_rgba8("#gggggg").is_err());
    assert!(parse_rgba8("#é12").is_err());
}

#[test]
fn display_round_trips() {
    let c = parse_rgba8("#12345678").unwrap();
    assert_eq!(format_rgba8(c), "#12345678");
}

#[test]
fn short_form_repeats_each_digit() {
    assert_eq!(parse_rgba8("#1a9").unwrap(), [0x11, 0xaa, 0x99, 255]);
    assert_eq!(parse_rgba8("#1a9").unwrap(), parse_rgba8("#11aa99").unwrap());
}

#[test]
fn hash_is_optional() {
    assert_eq!(parse_rgba8("0040ff").unwrap(), parse_rgba8("#0040ff").unwrap());
    assert_eq!(parse_rgba8("0040ff33").unwrap(), [0x00, 0x40, 0xff, 0x33]);
}

#[test]
fn only_one_hash_is_stripped() {
    assert!(parse_rgba8("##fff").is_err());
    assert!(parse_rgba8("#").is_err());
    assert!(parse_rgba8("").is_err());
}

#[test]
fn digits_of_either_case() {
    assert_eq!(parse_rgba8("#ABCDEF").unwrap(), parse_rgba8("#abcdef").unwrap());
    assert_eq!(parse_rgba8("#AbCdEf80").unwrap(), [0xab, 0xcd, 0xef, 0x80]);
}

#[test]
fn wrong_lengths_are_refused() {
    for s in ["#f", "#ff", "#ffff", "#fffff", "#fffffff", "#fffffffff"] {
        assert!(parse_rgba8(s).is_err(), "{s}");
    }
}

#[test]
fn error_holds_the_whole_text() {
    let e = parse_rgba8("#zz0000").unwrap_err();
    assert_eq!(e.text(), "#zz0000");
    assert_eq!(e, ParseColorError::new("#zz0000".to_string()));
    assert_ne!(e, ParseColorError::new("zz0000".to_string()));
}

#[test]
fn error_message_quotes_the_text() {
    let e = parse_rgba8("red\"").unwrap_err();
    assert_eq!(
        e.message(),
        "invalid colour \"red\\\"\": expected #rgb, #rrggbb or #rrggbbaa"
    );
    let e = parse_rgba8("#ff80").unwrap_err();
    assert_eq!(e.message(), "invalid colour \"#ff80\": expected #rgb, #rrggbb or #rrggbbaa");
}

#[test]
fn formats_lower_case_two_digits() {
    assert_eq!(format_rgba8([0, 10, 255, 171]), "#000affab");
    assert_eq!(format_rgba8([255, 255, 255, 255]), "#ffffffff");
}

#[test]
fn upper_case_text_prints_lower_case() {
    let c = parse_rgba8("#ABCDEF12").unwrap();
    assert_eq!(format_rgba8(c), "#abcdef12");
}

#[test]
fn every_colour_round_trips_through_text() {
    for v in (0u32..=255).step_by(5) {
        let c = [v as u8, (255 - v) as u8, (v * 7 % 256) as u8, (v / 3) as u8];
        assert_eq!(parse_rgba8(&format_rgba8(c)).unwrap(), c);
    }
}

#[test]
fn opaque_without_alpha() {
    assert_eq!(parse_rgba8("#123").unwrap()[3], 255);
    assert_eq!(parse_rgba8("#123456").unwrap()[3], 255);
}

#[test]
fn message_around_quoted_text() {
    assert_eq!(
        message_from_quoted("\"xyz\""),
        "invalid colour \"xyz\": expected #rgb, #rrggbb or #rrggbbaa"
    );
}
