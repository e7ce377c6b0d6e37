//! The calls into chrono, the calendar/timezone library this crate
//! builds on. Each wrapper here is trusted: its contract states what
//! chrono's source and documentation show, and the verified code rests
//! on the contract alone. Results that would take pages to describe
//! (what a parse or a rendering yields) are given names instead.

use vstd::prelude::*;

verus! {

/// The smallest epoch second this crate renders as a date. chrono's
/// RFC 2822 formatter refuses years outside 0 to 9999; year 0 opens at
/// -62_167_219_200, and a day's margin is kept so that no zone offset
/// (chrono confines them strictly within a day) can push the local
/// calendar date below year 0.
pub const RENDER_MIN_SECONDS: i64 = -62_167_132_800;

/// The largest epoch second this crate renders as a date: the last
/// second of year 9999 is 253_402_300_799, with the same day of margin
/// kept below it for zone offsets.
pub const RENDER_MAX_SECONDS: i64 = 253_402_214_399;

/// The instant (epoch seconds, sub-second nanoseconds) that chrono's
/// RFC 2822 parser reads from a string, `None` where it rejects the
/// string. The result depends on the characters alone.
pub uninterp spec fn rfc2822_parse_of(s: Seq<char>) -> Option<(int, int)>;

/// The instant that chrono's format-driven parser reads from a string
/// under a given format, `None` where it rejects the string. The result
/// depends on the string and the format alone.
pub uninterp spec fn format_parse_of(s: Seq<char>, fmt: Seq<char>) -> Option<(int, int)>;

/// The RFC 2822 rendering, in UTC, of an instant within the bounds
/// above. The rendering depends on the instant alone.
pub uninterp spec fn utc_rfc2822_of(seconds: int, nanos: int) -> Seq<char>;

/// An optional parse result, seen as the pair of mathematical integers
/// it holds.
pub open spec fn parsed_view(r: Option<(i64, u32)>) -> Option<(int, int)> {
    match r {
        Some(p) => Some((p.0 as int, p.1 as int)),
        None => None,
    }
}

/// Relies on chrono's `DateTime::parse_from_rfc2822`, the instant read
/// off through `timestamp` and `timestamp_subsec_nanos`; rejected
/// strings give an error, never a panic, and the nanosecond bound is
/// chrono's documented range, leap seconds included.
#[verifier::external_body]
pub(crate) fn parse_rfc2822_call(s: &str) -> (r: Option<(i64, u32)>)
    ensures
        parsed_view(r) == rfc2822_parse_of(s@),
        r matches Some(p) ==> p.1 < 2_000_000_000,
{
    match chrono::DateTime::parse_from_rfc2822(s) {
        Ok(dt) => Some((dt.timestamp(), dt.timestamp_subsec_nanos())),
        Err(_) => None,
    }
}

/// Relies on chrono's `DateTime::parse_from_str`, the instant read off
/// through `timestamp` and `timestamp_subsec_nanos`; the nanosecond
/// bound is chrono's documented range, leap seconds included. Only the
/// crate's three fixed offset formats are admitted: under them a string
/// that does not match gives an error, never a panic (a format carrying
/// `%s` could instead panic inside chrono's timestamp reconstruction at
/// the calendar edge).
#[verifier::external_body]
pub(crate) fn parse_format_call(s: &str, fmt: &str) -> (r: Option<(i64, u32)>)
    requires
        fmt@ == "%d-%m-%Y %T %z"@ || fmt@ == "%m/%d/%Y %T %z"@ || fmt@ == "%Y/%m/%d %T %z"@,
    ensures
        parsed_view(r) == format_parse_of(s@, fmt@),
        r matches Some(p) ==> p.1 < 2_000_000_000,
{
    match chrono::DateTime::parse_from_str(s, fmt) {
        Ok(dt) => Some((dt.timestamp(), dt.timestamp_subsec_nanos())),
        Err(_) => None,
    }
}

/// Relies on chrono's `DateTime::from_timestamp` and `to_rfc2822`: the
/// UTC rendering depends on the instant alone. The bounds keep the
/// instant inside years 0 to 9999, the only years whose dates chrono's
/// RFC 2822 formatter accepts; within them `from_timestamp` always
/// succeeds, so the fallback arm is never reached.
#[verifier::external_body]
pub(crate) fn utc_rfc2822_call(seconds: i64, nanos: u32) -> (r: String)
    requires
        RENDER_MIN_SECONDS <= seconds <= RENDER_MAX_SECONDS,
        nanos <= 999_999_999,
    ensures
        r@ == utc_rfc2822_of(seconds as int, nanos as int),
{
    match chrono::DateTime::from_timestamp(seconds, nanos) {
        Some(dt) => dt.to_rfc2822(),
        None => String::new(),
    }
}

/// Relies on chrono's `DateTime::from_timestamp`, `with_timezone` and
/// `to_rfc2822` under the machine's local zone. The result depends on
/// that zone, so nothing is promised of its text. The bounds, a day
/// inside years 0 to 9999, keep the local calendar date acceptable to
/// chrono's RFC 2822 formatter under every zone offset, so the call
/// cannot panic.
#[verifier::external_body]
pub(crate) fn local_rfc2822_call(seconds: i64, nanos: u32) -> (r: String)
    requires
        RENDER_MIN_SECONDS <= seconds <= RENDER_MAX_SECONDS,
        nanos <= 999_999_999,
{
    match chrono::DateTime::from_timestamp(seconds, nanos) {
        Some(dt) => dt.with_timezone(&chrono::Local).to_rfc2822(),
        None => String::new(),
    }
}

} // verus!
