//! The result printer's values: the four output lines a conversion
//! prints, computed from a normalized UTC instant.

use vstd::prelude::*;
use crate::calendar::RENDER_MAX_SECONDS;
use crate::calendar::RENDER_MIN_SECONDS;
use crate::calendar::local_rfc2822_call;
use crate::calendar::utc_rfc2822_call;
use crate::calendar::utc_rfc2822_of;
use crate::instant::Instant;

verus! {

/// The four output values of one conversion, in print order: epoch
/// seconds, epoch milliseconds, the RFC 2822 rendering in UTC, and the
/// RFC 2822 rendering in the machine's local zone. The local line's
/// text depends on that zone, so no contract pins it.
pub struct Rendered {
    pub seconds: i64,
    pub millis: i64,
    pub gmt: String,
    pub local: String,
}

/// Prepares the four output values for an instant. The milliseconds
/// value is the seconds value times one thousand plus the whole
/// milliseconds of the nanosecond remainder.
///
/// The bounds on `seconds` are those of the calendar library's
/// RFC 2822 formatter (years 0 to 9999, a day's margin kept for the
/// local zone's offset); instants beyond them are a documented
/// limitation of the date lines.
pub fn render(instant: &Instant) -> (r: Rendered)
    requires
        instant.wf(),
        RENDER_MIN_SECONDS <= instant.seconds <= RENDER_MAX_SECONDS,
    ensures
        r.seconds == instant.seconds,
        r.millis == instant.seconds * 1000 + instant.nanos as int / 1_000_000,
        r.gmt@ == utc_rfc2822_of(instant.seconds as int, instant.nanos as int),
{
    let sub_millis = instant.nanos / 1_000_000;
    let millis = instant.seconds * 1000 + sub_millis as i64;
    let gmt = utc_rfc2822_call(instant.seconds, instant.nanos);
    let local = local_rfc2822_call(instant.seconds, instant.nanos);
    Rendered { seconds: instant.seconds, millis, gmt, local }
}

} // verus!
