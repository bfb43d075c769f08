use lib::{ParseIntErrorKind, Path, PathParseErrorType};
use std::num::IntErrorKind;

#[test]
fn integer_parsing_error_keeps_its_source() {
    let e = Path::from_str("channels/abc").unwrap_err();
    assert!(matches!(e.kind(), PathParseErrorType::IntegerParsing));
    let expected = "abc".parse::<u64>().unwrap_err();
    assert_eq!(e.source(), Some(&expected));
    assert_eq!(e.to_string(), "An ID in a segment was invalid");
    assert_eq!(e.into_source(), Some(expected));
}

#[test]
fn overflowing_id_source() {
    let e = Path::from_str("guilds/18446744073709551616").unwrap_err();
    let expected = "18446744073709551616".parse::<u64>().unwrap_err();
    let (kind, source) = e.into_parts();
    assert!(matches!(kind, PathParseErrorType::IntegerParsing));
    assert_eq!(source, Some(expected));
}

#[test]
fn other_errors_have_no_source() {
    let e = Path::from_str("nothing/here").unwrap_err();
    assert!(matches!(e.kind(), PathParseErrorType::NoMatch));
    assert!(e.source().is_none());
    assert_eq!(e.to_string(), "There was no matched path");
    assert!(e.into_source().is_none());

    let e = Path::from_str("channels/5/messages/6").unwrap_err();
    assert_eq!(
        e.to_string(),
        "A message path was detected but the method wasn't given"
    );
    let (kind, source) = e.into_parts();
    assert!(matches!(kind, PathParseErrorType::MessageIdWithoutMethod { channel_id: 5 }));
    assert!(source.is_none());
}

#[test]
fn source_kind_is_the_id_segments_parse_error_kind() {
    for (route, segment, expected) in [
        ("channels/abc", "abc", ParseIntErrorKind::InvalidDigit),
        ("channels/", "", ParseIntErrorKind::Empty),
        ("/guilds//roles", "", ParseIntErrorKind::Empty),
        ("channels/+", "+", ParseIntErrorKind::InvalidDigit),
        ("channels/-1/pins", "-1", ParseIntErrorKind::InvalidDigit),
        ("webhooks/18446744073709551616", "18446744073709551616", ParseIntErrorKind::PosOverflow),
        ("channels/x/messages/1", "x", ParseIntErrorKind::InvalidDigit),
    ] {
        let e = Path::from_str(route).unwrap_err();
        assert_eq!(e.source_kind(), Some(expected), "route {route}");
        let std_error = segment.parse::<u64>().unwrap_err();
        assert_eq!(e.source(), Some(&std_error), "route {route}");
        let std_kind = match expected {
            ParseIntErrorKind::Empty => IntErrorKind::Empty,
            ParseIntErrorKind::InvalidDigit => IntErrorKind::InvalidDigit,
            ParseIntErrorKind::PosOverflow => IntErrorKind::PosOverflow,
            _ => unreachable!(),
        };
        assert_eq!(e.source().unwrap().kind(), &std_kind, "route {route}");
    }
}

#[test]
fn only_integer_errors_have_a_source_kind() {
    assert_eq!(Path::from_str("nothing").unwrap_err().source_kind(), None);
    assert_eq!(Path::from_str("channels/1/messages/2").unwrap_err().source_kind(), None);
}
