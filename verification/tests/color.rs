use schwitzerflut::color::Color;
use schwitzerflut::color::ParseColorError;
use schwitzerflut::color::RgbColor;
use schwitzerflut::color::RgbaColor;

#[test]
fn test_parse_rgb() {
    assert_eq!(
        Color::parse("c0ffee"),
        Ok(Color::Rgb(RgbColor {
            r: 0xc0,
            g: 0xff,
            b: 0xee
        }))
    )
}

#[test]
fn test_parse_rgba() {
    assert_eq!(
        Color::parse("c0ffeeff"),
        Ok(Color::Rgba(RgbaColor {
            rgb: RgbColor {
                r: 0xc0,
                g: 0xff,
                b: 0xee
            },
            alpha: 0xff
        }))
    )
}

#[test]
fn test_parse_invalid_length() {
    assert_eq!(
        Color::parse("c00"),
        Err(ParseColorError::UnexpectedInputLength { length: 3 })
    )
}

#[test]
fn test_parse_invalid_hex() {
    assert!(Color::parse("xxxxxx").is_err())
}

#[test]
fn test_rgb_round_trip() {
    let color = Color::parse("00af9b").unwrap();
    assert_eq!(color.wire_string(), "00af9b");
}

#[test]
fn test_rgba_round_trip() {
    let color = Color::parse("00af9b7f").unwrap();
    assert_eq!(color.wire_string(), "00af9b7f");
}

#[test]
fn test_rgb_wire_string_exact() {
    let color = Color::Rgb(RgbColor::new(0, 10, 255));
    assert_eq!(color.wire_string(), "000aff");
}

#[test]
fn test_rgba_wire_string_keeps_alpha() {
    let color = Color::Rgba(RgbaColor::new(RgbColor::new(1, 2, 3), 0));
    assert_eq!(color.wire_string(), "01020300");
}

#[test]
fn test_parse_dispatches_on_length() {
    assert!(matches!(Color::parse("aabbcc"), Ok(Color::Rgb(_))));
    assert!(matches!(Color::parse("aabbccdd"), Ok(Color::Rgba(_))));
    assert_eq!(
        Color::parse(""),
        Err(ParseColorError::UnexpectedInputLength { length: 0 })
    );
    assert_eq!(
        Color::parse("aabbccddee"),
        Err(ParseColorError::UnexpectedInputLength { length: 10 })
    );
}

#[test]
fn test_parse_rejects_uppercase_hex() {
    assert_eq!(Color::parse("C0FFEE"), Err(ParseColorError::InvalidHex));
}

#[test]
fn test_parse_rgba_invalid_alpha_digit() {
    assert_eq!(Color::parse("c0ffeezz"), Err(ParseColorError::InvalidHex));
}
