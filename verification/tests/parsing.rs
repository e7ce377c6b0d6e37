use epochconv::instant::Instant;
use epochconv::parse::ParseError;
use epochconv::parse::parse_datetime;

#[test]
fn rfc2822_input_gives_known_instant() {
    let r = parse_datetime("31 Jan 1970 00:00:00 +0000");
    assert_eq!(r, Ok(Instant { seconds: 2_592_000, nanos: 0 }));
}

#[test]
fn all_accepted_formats_agree() {
    let expected = Instant { seconds: 2_592_000, nanos: 0 };
    assert_eq!(parse_datetime("31-01-1970 00:00:00 +0000"), Ok(expected));
    assert_eq!(parse_datetime("01/31/1970 00:00:00 +0000"), Ok(expected));
    assert_eq!(parse_datetime("1970/01/31 00:00:00 +0000"), Ok(expected));
}

#[test]
fn gmt_suffix_is_substituted() {
    let r = parse_datetime("31 Jan 1970 00:00:00 GMT");
    assert_eq!(r, Ok(Instant { seconds: 2_592_000, nanos: 0 }));
}

#[test]
fn surrounding_whitespace_is_trimmed() {
    let r = parse_datetime("  31 Jan 1970 00:00:00 GMT \t\n");
    assert_eq!(r, Ok(Instant { seconds: 2_592_000, nanos: 0 }));
}

#[test]
fn missing_timezone_is_rejected() {
    let r = parse_datetime("31 Jan 1970 00:00:00");
    assert_eq!(
        r,
        Err(ParseError::MissingTimezone("31 Jan 1970 00:00:00".to_string())),
    );
}

#[test]
fn empty_input_is_rejected() {
    let r = parse_datetime("");
    assert_eq!(r, Err(ParseError::MissingTimezone(String::new())));
}

#[test]
fn garbage_with_suffix_is_unrecognized() {
    let r = parse_datetime("garbage +0000");
    assert_eq!(
        r,
        Err(ParseError::UnrecognizedFormat("garbage +0000".to_string())),
    );
}

#[test]
fn error_carries_normalized_input() {
    // trimmed, and GMT already replaced, when the formats reject it
    let r = parse_datetime("  garbage GMT0000 ");
    assert_eq!(
        r,
        Err(ParseError::UnrecognizedFormat("garbage +00000000".to_string())),
    );
}

#[test]
fn negative_offset_suffix_passes_the_loose_check() {
    // the suffix rule only demands four trailing digits, so a negative
    // offset is accepted and applied
    let r = parse_datetime("31 Jan 1970 00:00:00 -0500");
    assert_eq!(r, Ok(Instant { seconds: 2_592_000 + 5 * 3600, nanos: 0 }));
}

#[test]
fn positive_offset_is_applied() {
    // one hour east of UTC: the instant is one hour earlier
    let r = parse_datetime("31-01-1970 01:00:00 +0100");
    assert_eq!(r, Ok(Instant { seconds: 2_592_000, nanos: 0 }));
}
