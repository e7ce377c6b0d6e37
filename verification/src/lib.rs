//! Conversion between Unix epoch timestamps and calendar date/time text.
//!
//! The crate guesses the unit of a raw epoch integer (seconds through
//! nanoseconds), parses date/time strings that carry an explicit offset
//! suffix, and prepares the four output values a converter prints: epoch
//! seconds, epoch milliseconds, and the RFC 2822 rendering in UTC and in
//! the local zone.

pub mod calendar;
pub mod disambig;
pub mod instant;
pub mod parse;
pub mod render;
pub mod roundtrip;
pub mod text;
