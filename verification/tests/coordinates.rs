use schwitzerflut::coordinates::Coordinates;
use schwitzerflut::coordinates::ParseCoordinatesError;

#[test]
fn test_parse_coordinates() {
    assert_eq!(
        Coordinates::parse("1337 42"),
        Ok(Coordinates { x: 1337, y: 42 })
    )
}

#[test]
fn test_parse_invalid_syntax() {
    assert_eq!(
        Coordinates::parse("1337,42"),
        Err(ParseCoordinatesError::SyntaxError)
    )
}

#[test]
fn test_parse_invalid_integer() {
    assert!(Coordinates::parse("foobar 32").is_err())
}

#[test]
fn test_wire_string_is_space_separated() {
    assert_eq!(Coordinates::new(1337, 42).wire_string(), "1337 42");
}

#[test]
fn test_display_string_is_comma_separated() {
    assert_eq!(Coordinates::new(1337, 42).display_string(), "1337, 42");
}

#[test]
fn test_two_textual_forms_differ() {
    let c = Coordinates::new(3, 7);
    assert_eq!(c.wire_string(), "3 7");
    assert_eq!(c.display_string(), "3, 7");
    assert_ne!(c.wire_string(), c.display_string());
}

#[test]
fn test_parse_extreme_values() {
    assert_eq!(
        Coordinates::parse("4294967295 0"),
        Ok(Coordinates::new(4294967295, 0))
    );
}

#[test]
fn test_parse_out_of_range_integer() {
    assert_eq!(
        Coordinates::parse("4294967296 0"),
        Err(ParseCoordinatesError::InvalidInteger)
    );
}

#[test]
fn test_parse_double_space_fails() {
    assert_eq!(
        Coordinates::parse("1337  42"),
        Err(ParseCoordinatesError::InvalidInteger)
    );
}

#[test]
fn test_parse_leading_zeros() {
    assert_eq!(Coordinates::parse("007 042"), Ok(Coordinates::new(7, 42)));
}

#[test]
fn test_wire_string_extremes() {
    assert_eq!(Coordinates::new(0, 0).wire_string(), "0 0");
    assert_eq!(
        Coordinates::new(4294967295, 10).wire_string(),
        "4294967295 10"
    );
}

#[test]
fn test_wire_round_trip() {
    let c = Coordinates::new(65536, 1);
    assert_eq!(Coordinates::parse(&c.wire_string()), Ok(c));
}
