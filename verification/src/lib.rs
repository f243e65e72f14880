//! Roman sun clock: the day/night timeline around an instant and the
//! variable-length "Roman" hours that divide it.
//!
//! The crate holds the integer side of the clock. Sunrise and sunset epochs
//! arrive as plain millisecond counts from whatever ephemeris the caller
//! runs. The library tests that they are sound (each sunrise before its
//! sunset, no day running into the next) and decides everything else from
//! them: which transition came last, which comes next, whether a
//! neighbouring day must be consulted, what the Roman hour is, and where
//! the marks stand on the dial.

pub mod clock_face;
pub mod clock_text;
pub mod point_of_time;
pub mod roman_time;
pub mod time_calculators;
pub mod timeline;
pub mod types;
