//! Round-trip laws tying the unit disambiguator to the rendered
//! output: what comes out of a rendering feeds back through the
//! disambiguator without loss.

use vstd::prelude::*;
use vstd::arithmetic::div_mod::lemma_div_multiples_vanish;
use vstd::arithmetic::div_mod::lemma_fundamental_div_mod;
use vstd::arithmetic::div_mod::lemma_mod_bound;
use crate::disambig::Unit;
use crate::disambig::disambiguate_spec;
use crate::instant::Instant;

verus! {

/// Seconds-band lines: a raw value in the seconds band disambiguates
/// to the instant (raw, 0), so a rendering of it shows `raw` on the
/// epoch-seconds line and `raw` times one thousand on the milliseconds
/// line (the expressions are those of `render`'s contract).
pub proof fn lemma_seconds_band_lines(raw: i64, now_seconds: i64)
    requires
        raw <= now_seconds * 10,
    ensures
        ({
            let inst = disambiguate_spec(raw as int, now_seconds as int).0;
            inst.seconds == raw && inst.nanos == 0 && inst.seconds * 1000
                + inst.nanos as int / 1_000_000 == raw * 1000
        }),
{
}

/// Milliseconds round-trip: for a raw value in the milliseconds band,
/// the milliseconds output of a rendering (the seconds component times
/// one thousand plus the whole milliseconds of the nanosecond
/// remainder, as `render` ensures), divided by one thousand, gives
/// back the seconds component that the disambiguator produced.
pub proof fn lemma_millis_round_trip(raw: i64, now_seconds: i64)
    requires
        0 <= now_seconds,
        now_seconds * 10 < raw <= now_seconds * 10_000,
    ensures
        ({
            let inst = disambiguate_spec(raw as int, now_seconds as int).0;
            (inst.seconds * 1000 + inst.nanos as int / 1_000_000) / 1000 == inst.seconds
        }),
        disambiguate_spec(raw as int, now_seconds as int).0.seconds * 1000
            + disambiguate_spec(raw as int, now_seconds as int).0.nanos as int / 1_000_000 == raw,
{
    let ri = raw as int;
    assert(0 <= now_seconds * 10) by (nonlinear_arith)
        requires 0 <= now_seconds;
    lemma_mod_bound(ri, 1000);
    lemma_fundamental_div_mod(ri, 1000);
    let s = ri / 1000;
    let m = ri % 1000;
    assert(ri == 1000 * s + m);
    lemma_div_multiples_vanish(m, 1_000_000);
    let inst = disambiguate_spec(ri, now_seconds as int).0;
    assert(inst.seconds == s);
    assert(inst.nanos == 1_000_000 * m);
    assert(inst.nanos as int / 1_000_000 == m);
    assert(inst.seconds * 1000 + m == ri);
}

/// Seconds idempotence: the epoch-seconds line of a rendering equals
/// the instant's seconds component (as `render` ensures), and feeding
/// that value back through the disambiguator as a seconds-unit input
/// reproduces the instant exactly. This holds of the instants a
/// seconds line can describe, those on a whole second: a nonzero
/// nanosecond remainder does not survive, since the seconds line
/// carries none. Because the instant itself is reproduced, the
/// rendered seconds, milliseconds and UTC lines of the second pass
/// equal the first pass's; the local line stands under no contract, so
/// nothing is claimed of it.
pub proof fn lemma_seconds_round_trip(instant: Instant, now_seconds: i64)
    requires
        instant.nanos == 0,
        instant.seconds <= now_seconds * 10,
    ensures
        disambiguate_spec(instant.seconds as int, now_seconds as int) == (
            instant,
            Unit::Seconds,
        ),
{
    assert(disambiguate_spec(instant.seconds as int, now_seconds as int).0 == instant);
}

} // verus!
