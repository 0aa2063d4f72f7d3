use prompt_config::color::{parse_color, parse_color_lower, Color, ColorError};

#[test]
fn named_colors_any_casing() {
    let cases: [(&str, Color); 9] = [
        ("default", Color::Default),
        ("black", Color::Black),
        ("red", Color::Red),
        ("green", Color::Green),
        ("yellow", Color::Yellow),
        ("blue", Color::Blue),
        ("magenta", Color::Magenta),
        ("cyan", Color::Cyan),
        ("white", Color::White),
    ];
    for (name, want) in cases {
        let lower = name.to_string();
        let upper = name.to_uppercase();
        let mut capitalized = upper[..1].to_string();
        capitalized.push_str(&name[1..]);
        assert_eq!(parse_color(&lower), Ok(want));
        assert_eq!(parse_color(&upper), Ok(want));
        assert_eq!(parse_color(&capitalized), Ok(want));
    }
}

#[test]
fn short_and_long_hex_agree() {
    assert_eq!(parse_color("#f00"), Ok(Color::RGB(255, 0, 0)));
    assert_eq!(parse_color("#ff0000"), Ok(Color::RGB(255, 0, 0)));
}

#[test]
fn short_hex_doubles_nibbles() {
    assert_eq!(parse_color("#ABC"), Ok(Color::RGB(170, 187, 204)));
    assert_eq!(parse_color("#abc"), Ok(Color::RGB(170, 187, 204)));
}

#[test]
fn uppercase_hex_accepted() {
    assert_eq!(parse_color("#FF0000"), Ok(Color::RGB(255, 0, 0)));
    assert_eq!(parse_color("#00FF00"), Ok(Color::RGB(0, 255, 0)));
}

#[test]
fn decimal_fixed_and_overflow() {
    assert_eq!(parse_color("255"), Ok(Color::Fixed(255)));
    assert_eq!(parse_color("256"), Err(ColorError::NumericOverflow));
    assert_eq!(parse_color("-1"), Err(ColorError::InvalidColorValue));
}

#[test]
fn decimal_leading_zeros_accepted() {
    assert_eq!(parse_color("007"), Ok(Color::Fixed(7)));
    assert_eq!(parse_color("0"), Ok(Color::Fixed(0)));
}

#[test]
fn decimal_far_overflow() {
    assert_eq!(parse_color("99999999999999999999"), Err(ColorError::NumericOverflow));
}

#[test]
fn hex_wrong_length_rejected() {
    assert_eq!(parse_color("#12"), Err(ColorError::InvalidColorValue));
    assert_eq!(parse_color("#1234567"), Err(ColorError::InvalidColorValue));
}

#[test]
fn hex_bad_digit_rejected() {
    assert_eq!(parse_color("#0g0"), Err(ColorError::InvalidHexDigit));
    assert_eq!(parse_color("#00000x"), Err(ColorError::InvalidHexDigit));
}

#[test]
fn garbage_rejected() {
    assert_eq!(parse_color(""), Err(ColorError::InvalidColorValue));
    assert_eq!(parse_color("bluish"), Err(ColorError::InvalidColorValue));
    assert_eq!(parse_color("12a"), Err(ColorError::InvalidColorValue));
}

#[test]
fn lowercasing_reaches_parser() {
    // Would fail if the lowercasing step handed its input back unchanged.
    assert_eq!(parse_color("RED"), Ok(Color::Red));
    assert_eq!(parse_color_lower("red"), Ok(Color::Red));
    assert_eq!(parse_color_lower("RED"), Err(ColorError::InvalidColorValue));
}

#[test]
fn color_round_trip_all_forms() {
    let colors = [
        Color::Default,
        Color::Black,
        Color::Red,
        Color::Green,
        Color::Yellow,
        Color::Blue,
        Color::Magenta,
        Color::Cyan,
        Color::White,
        Color::Fixed(0),
        Color::Fixed(7),
        Color::Fixed(42),
        Color::Fixed(255),
        Color::RGB(0, 0, 0),
        Color::RGB(1, 2, 3),
        Color::RGB(170, 187, 204),
        Color::RGB(255, 255, 255),
    ];
    for c in colors {
        let s = c.to_config_string();
        assert_eq!(parse_color_lower(&s), Ok(c));
        assert_eq!(parse_color(&s), Ok(c));
    }
}

#[test]
fn canonical_strings() {
    assert_eq!(Color::Blue.to_config_string(), "blue");
    assert_eq!(Color::Fixed(7).to_config_string(), "7");
    assert_eq!(Color::Fixed(42).to_config_string(), "42");
    assert_eq!(Color::Fixed(255).to_config_string(), "255");
    assert_eq!(Color::RGB(1, 2, 3).to_config_string(), "#010203");
    assert_eq!(Color::RGB(255, 0, 170).to_config_string(), "#ff00aa");
}
