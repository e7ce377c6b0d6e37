//! The date/time parser: normalize the input, demand an offset-like
//! suffix, then try a fixed sequence of formats, first success wins.

use vstd::prelude::*;
use crate::calendar::format_parse_of;
use crate::calendar::parse_format_call;
use crate::calendar::parse_rfc2822_call;
use crate::calendar::rfc2822_parse_of;
use crate::instant::Instant;
use crate::instant::carried_parts;
use crate::text::ends_in_four_digits;
use crate::text::has_four_digit_suffix;
use crate::text::replace_gmt;
use crate::text::replace_gmt_spec;
use crate::text::trim_spec;
use crate::text::trim_str;

verus! {

/// Why a date/time string was rejected. Each variant carries the
/// normalized string, for the caller's error message.
#[derive(Debug, PartialEq, Eq)]
pub enum ParseError {
    /// The normalized string does not end in a four-digit offset
    /// suffix.
    MissingTimezone(String),
    /// The normalized string has an offset-like suffix, but none of the
    /// accepted formats matches it.
    UnrecognizedFormat(String),
}

/// The normalized form of an input: surrounding whitespace removed,
/// then every "GMT" replaced by the fixed offset marker "+0000".
pub open spec fn normalized_spec(s: Seq<char>) -> Seq<char> {
    replace_gmt_spec(trim_spec(s))
}

/// The instant read from the normalized string by the first accepted
/// format that matches, in the fixed order RFC 2822, then day-month-year,
/// month/day/year, year/month/day; `None` when all four reject it.
pub open spec fn first_format_hit(n: Seq<char>) -> Option<(int, int)> {
    if rfc2822_parse_of(n) is Some {
        rfc2822_parse_of(n)
    } else if format_parse_of(n, "%d-%m-%Y %T %z"@) is Some {
        format_parse_of(n, "%d-%m-%Y %T %z"@)
    } else if format_parse_of(n, "%m/%d/%Y %T %z"@) is Some {
        format_parse_of(n, "%m/%d/%Y %T %z"@)
    } else {
        format_parse_of(n, "%Y/%m/%d %T %z"@)
    }
}

/// Parses a free-form date/time string into a UTC instant.
///
/// The input is trimmed and every "GMT" becomes "+0000"; the normalized
/// string must end in four decimal digits, or the parse fails with
/// `MissingTimezone`. Otherwise the accepted formats are tried in their
/// fixed order; when every one of them rejects the string, the parse
/// fails with `UnrecognizedFormat`, and when one matches, its instant
/// is returned, a leap-second nanosecond part carried into the seconds.
pub fn parse_datetime(src: &str) -> (r: Result<Instant, ParseError>)
    ensures
        !ends_in_four_digits(normalized_spec(src@)) ==> (r matches Err(
            ParseError::MissingTimezone(m),
        ) && m@ == normalized_spec(src@)),
        ends_in_four_digits(normalized_spec(src@)) && first_format_hit(normalized_spec(src@))
            is None ==> (r matches Err(ParseError::UnrecognizedFormat(m)) && m@ == normalized_spec(
            src@,
        )),
        ends_in_four_digits(normalized_spec(src@)) ==> (first_format_hit(normalized_spec(src@))
            matches Some(p) ==> (r matches Ok(i) && i.seconds == carried_parts(p.0, p.1).0
            && i.nanos == carried_parts(p.0, p.1).1)),
        r matches Ok(i) ==> i.wf(),
{
    let trimmed = trim_str(src);
    let norm = replace_gmt(trimmed);
    if !has_four_digit_suffix(norm.as_str()) {
        Err(ParseError::MissingTimezone(norm))
    } else {
        match parse_rfc2822_call(norm.as_str()) {
            Some((s, n)) => Ok(Instant::from_timestamp_parts(s, n)),
            None => match parse_format_call(norm.as_str(), "%d-%m-%Y %T %z") {
                Some((s, n)) => Ok(Instant::from_timestamp_parts(s, n)),
                None => match parse_format_call(norm.as_str(), "%m/%d/%Y %T %z") {
                    Some((s, n)) => Ok(Instant::from_timestamp_parts(s, n)),
                    None => match parse_format_call(norm.as_str(), "%Y/%m/%d %T %z") {
                        Some((s, n)) => Ok(Instant::from_timestamp_parts(s, n)),
                        None => Err(ParseError::UnrecognizedFormat(norm)),
                    },
                },
            },
        }
    }
}

} // verus!
