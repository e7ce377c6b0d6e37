use epochconv::disambig::Unit;
use epochconv::disambig::disambiguate;
use epochconv::disambig::unit_notice;
use epochconv::instant::Instant;
use epochconv::render::render;

#[test]
fn seconds_band_keeps_value() {
    let (i, u) = disambiguate(100, 1_700_000_000);
    assert_eq!(i, Instant { seconds: 100, nanos: 0 });
    assert_eq!(u, Unit::Seconds);
    assert_eq!(unit_notice(u), "Assuming that timestamp is in seconds.");
}

#[test]
fn seconds_band_takes_negative_values() {
    let (i, u) = disambiguate(-5, 1_700_000_000);
    assert_eq!(i, Instant { seconds: -5, nanos: 0 });
    assert_eq!(u, Unit::Seconds);
}

#[test]
fn milliseconds_band_splits_value() {
    let (i, u) = disambiguate(1_700_000_000_123, 1_700_000_000);
    assert_eq!(u, Unit::Milliseconds);
    assert_eq!(i.seconds, 1_700_000_000);
    assert_eq!(i.nanos, 123_000_000);
    assert_eq!(unit_notice(u), "Assuming that timestamp is in milliseconds.");
}

#[test]
fn milliseconds_band_lower_edge() {
    // one above now * 10 falls into the milliseconds band
    let now: i64 = 1_700_000_000;
    let raw = now * 10 + 1;
    let (i, u) = disambiguate(raw, now);
    assert_eq!(u, Unit::Milliseconds);
    assert_eq!(i.seconds, raw / 1000);
    assert_eq!(i.nanos, (1_000_000 * (raw % 1000)) as u32);
}

#[test]
fn microseconds_band_splits_value() {
    let (i, u) = disambiguate(1_700_000_000_123_456, 1_700_000_000);
    assert_eq!(u, Unit::Microseconds);
    assert_eq!(i.seconds, 1_700_000_000);
    assert_eq!(i.nanos, 123_456_000);
    assert_eq!(unit_notice(u), "Assuming that timestamp is in microseconds.");
}

#[test]
fn nanoseconds_band_derives_from_now() {
    // the last band reproduces the reference quirk: the result comes
    // from the current time, not from the raw input
    let (i, u) = disambiguate(1_700_000_000_000_000_001, 1_700_000_000);
    assert_eq!(u, Unit::Nanoseconds);
    assert_eq!(i, Instant { seconds: 1, nanos: 700_000_000 });
    assert_eq!(unit_notice(u), "Assuming that timestamp is in nanoseconds.");
}

#[test]
fn millis_round_trip_reconstructs_seconds() {
    let (i, _) = disambiguate(1_700_000_000_123, 1_700_000_000);
    let out = render(&i);
    assert_eq!(out.millis, 1_700_000_000_123);
    assert_eq!(out.millis / 1000, i.seconds);
}

#[test]
fn seconds_output_feeds_back_unchanged() {
    let now = 1_700_000_000;
    let (i, _) = disambiguate(123_456, now);
    let out = render(&i);
    let (again, u) = disambiguate(out.seconds, now);
    assert_eq!(u, Unit::Seconds);
    assert_eq!(again, i);
}
