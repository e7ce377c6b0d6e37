//! The value type that every conversion produces: an absolute point in
//! time, held as epoch seconds plus a sub-second nanosecond remainder.

use vstd::prelude::*;

verus! {

/// An absolute point in time: whole seconds since the Unix epoch and a
/// non-negative sub-second remainder in nanoseconds. Freely copyable;
/// immutable once built.
#[derive(Clone, Copy, Debug, PartialEq, Eq, Structural)]
pub struct Instant {
    pub seconds: i64,
    pub nanos: u32,
}

/// Folds a nanosecond part that encodes a leap second (one billion or
/// more) into the seconds, saturating at the largest representable
/// second count instead of overflowing.
pub open spec fn carried_parts(s: int, n: int) -> (int, int) {
    if n < 1_000_000_000 {
        (s, n)
    } else if s < i64::MAX {
        (s + 1, n - 1_000_000_000)
    } else {
        (s, 999_999_999)
    }
}

impl Instant {
    /// The nanosecond component is a fractional remainder of the second
    /// component: it never reaches a whole second.
    pub open spec fn wf(self) -> bool {
        self.nanos <= 999_999_999
    }

    /// Builds an `Instant` from a raw (seconds, nanoseconds) pair in
    /// which the nanosecond part may encode a leap second; the overflow
    /// is carried into the seconds as `carried_parts` describes.
    pub fn from_timestamp_parts(seconds: i64, nanos: u32) -> (r: Instant)
        requires
            nanos < 2_000_000_000,
        ensures
            r.seconds as int == carried_parts(seconds as int, nanos as int).0,
            r.nanos as int == carried_parts(seconds as int, nanos as int).1,
            r.wf(),
    {
        if nanos < 1_000_000_000 {
            Instant { seconds, nanos }
        } else if seconds < i64::MAX {
            Instant { seconds: seconds + 1, nanos: nanos - 1_000_000_000 }
        } else {
            Instant { seconds, nanos: 999_999_999 }
        }
    }
}

} // verus!
