//! Heuristic unit disambiguation: given a raw epoch integer and the
//! current epoch second count, guess whether the integer is seconds,
//! milliseconds, microseconds or nanoseconds, and normalize it to an
//! `Instant`.

use vstd::prelude::*;
use crate::instant::Instant;

verus! {

/// The unit a raw epoch integer was judged to be in.
#[derive(Clone, Copy, Debug, PartialEq, Eq, Structural)]
pub enum Unit {
    Seconds,
    Milliseconds,
    Microseconds,
    Nanoseconds,
}

/// The advisory one-line notice that accompanies each unit guess.
pub open spec fn unit_notice_spec(u: Unit) -> Seq<char> {
    match u {
        Unit::Seconds => "Assuming that timestamp is in seconds."@,
        Unit::Milliseconds => "Assuming that timestamp is in milliseconds."@,
        Unit::Microseconds => "Assuming that timestamp is in microseconds."@,
        Unit::Nanoseconds => "Assuming that timestamp is in nanoseconds."@,
    }
}

/// Returns the advisory notice for a unit guess, for the caller to print.
pub fn unit_notice(u: Unit) -> (r: &'static str)
    ensures
        r@ == unit_notice_spec(u),
{
    match u {
        Unit::Seconds => "Assuming that timestamp is in seconds.",
        Unit::Milliseconds => "Assuming that timestamp is in milliseconds.",
        Unit::Microseconds => "Assuming that timestamp is in microseconds.",
        Unit::Nanoseconds => "Assuming that timestamp is in nanoseconds.",
    }
}

/// The unit-band decision as a mathematical function: what
/// `disambiguate` returns for a raw integer and a current epoch second
/// count.
pub open spec fn disambiguate_spec(raw: int, now_seconds: int) -> (Instant, Unit) {
    if raw <= now_seconds * 10 {
        (Instant { seconds: raw as i64, nanos: 0u32 }, Unit::Seconds)
    } else if raw <= now_seconds * 10_000 {
        (
            Instant {
                seconds: (raw / 1000) as i64,
                nanos: (1_000_000 * (raw % 1000)) as u32,
            },
            Unit::Milliseconds,
        )
    } else if raw <= now_seconds * 10_000_000 {
        (
            Instant {
                seconds: (raw / 1_000_000) as i64,
                nanos: (1_000 * (raw % 1_000_000)) as u32,
            },
            Unit::Microseconds,
        )
    } else {
        (
            Instant {
                seconds: (now_seconds / 1_000_000_000) as i64,
                nanos: (now_seconds % 1_000_000_000) as u32,
            },
            Unit::Nanoseconds,
        )
    }
}

/// Guesses the unit of `raw` by comparing it against ascending magnitude
/// bands derived from the current time (threshold 10), first match wins,
/// and normalizes it to whole seconds plus a nanosecond remainder.
///
/// The last band deliberately derives its result from `now_seconds`, not
/// from `raw`, reproducing the reference behaviour of the tool this crate
/// mirrors.
///
/// The bounds on `now_seconds` keep every band comparison inside `i64`;
/// extreme clock values are a documented limitation, not an accepted
/// input.
pub fn disambiguate(raw: i64, now_seconds: i64) -> (r: (Instant, Unit))
    requires
        0 <= now_seconds,
        now_seconds * 10_000_000 <= i64::MAX,
    ensures
        r.0.wf(),
        r == disambiguate_spec(raw as int, now_seconds as int),
        raw <= now_seconds * 10 ==> r == (Instant { seconds: raw, nanos: 0u32 }, Unit::Seconds),
        now_seconds * 10 < raw <= now_seconds * 10_000 ==> {
            &&& r.0.seconds == raw as int / 1000
            &&& r.0.nanos == 1_000_000 * (raw as int % 1000)
            &&& r.1 == Unit::Milliseconds
        },
        now_seconds * 10_000 < raw <= now_seconds * 10_000_000 ==> {
            &&& r.0.seconds == raw as int / 1_000_000
            &&& r.0.nanos == 1_000 * (raw as int % 1_000_000)
            &&& r.1 == Unit::Microseconds
        },
        now_seconds * 10_000_000 < raw ==> {
            &&& r.0.seconds == now_seconds as int / 1_000_000_000
            &&& r.0.nanos == now_seconds as int % 1_000_000_000
            &&& r.1 == Unit::Nanoseconds
        },
{
    proof {
        assert(now_seconds * 10 <= now_seconds * 10_000_000) by (nonlinear_arith)
            requires 0 <= now_seconds;
        assert(now_seconds * 10_000 <= now_seconds * 10_000_000) by (nonlinear_arith)
            requires 0 <= now_seconds;
        assert(0 <= now_seconds * 10) by (nonlinear_arith)
            requires 0 <= now_seconds;
        assert(0 <= now_seconds * 10_000) by (nonlinear_arith)
            requires 0 <= now_seconds;
    }
    let band_seconds = now_seconds * 10;
    if raw <= band_seconds {
        (Instant { seconds: raw, nanos: 0 }, Unit::Seconds)
    } else {
        let band_millis = now_seconds * 10_000;
        let band_micros = now_seconds * 10_000_000;
        if raw <= band_millis {
            let ru = raw as u64;
            let q = ru / 1000;
            let rem = ru % 1000;
            let sub = 1_000_000u64 * rem;
            (Instant { seconds: q as i64, nanos: sub as u32 }, Unit::Milliseconds)
        } else if raw <= band_micros {
            let ru = raw as u64;
            let q = ru / 1_000_000;
            let rem = ru % 1_000_000;
            let sub = 1_000u64 * rem;
            (Instant { seconds: q as i64, nanos: sub as u32 }, Unit::Microseconds)
        } else {
            let nu = now_seconds as u64;
            let q = nu / 1_000_000_000;
            let rem = nu % 1_000_000_000;
            (Instant { seconds: q as i64, nanos: rem as u32 }, Unit::Nanoseconds)
        }
    }
}

} // verus!
