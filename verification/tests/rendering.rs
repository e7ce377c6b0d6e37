use epochconv::instant::Instant;
use epochconv::render::render;

#[test]
fn lines_for_a_known_instant() {
    let out = render(&Instant { seconds: 2_592_000, nanos: 0 });
    assert_eq!(out.seconds, 2_592_000);
    assert_eq!(out.millis, 2_592_000_000);
    assert_eq!(out.gmt, "Sat, 31 Jan 1970 00:00:00 +0000");
    assert!(!out.local.is_empty());
}

#[test]
fn millis_line_is_seconds_times_thousand_plus_whole_millis() {
    let instant = Instant { seconds: 7, nanos: 987_654_321 };
    let out = render(&instant);
    assert_eq!(out.seconds, 7);
    assert_eq!(out.millis, 7_987);
    assert_eq!(out.millis, out.seconds * 1000 + (instant.nanos / 1_000_000) as i64);
}

#[test]
fn negative_instant_renders() {
    let out = render(&Instant { seconds: -1, nanos: 0 });
    assert_eq!(out.seconds, -1);
    assert_eq!(out.millis, -1000);
    assert_eq!(out.gmt, "Wed, 31 Dec 1969 23:59:59 +0000");
}

#[test]
fn extreme_years_render_at_the_bounds() {
    let hi = render(&Instant { seconds: 253_402_214_399, nanos: 0 });
    assert_eq!(hi.seconds, 253_402_214_399);
    assert!(hi.gmt.ends_with("30 Dec 9999 23:59:59 +0000"), "{}", hi.gmt);
    let lo = render(&Instant { seconds: -62_167_132_800, nanos: 0 });
    assert!(lo.gmt.ends_with("Jan 0000 00:00:00 +0000"), "{}", lo.gmt);
}

#[test]
fn leap_second_nanos_are_carried() {
    let instant = Instant::from_timestamp_parts(59, 1_500_000_000);
    assert_eq!(instant, Instant { seconds: 60, nanos: 500_000_000 });
    let plain = Instant::from_timestamp_parts(59, 123);
    assert_eq!(plain, Instant { seconds: 59, nanos: 123 });
}
