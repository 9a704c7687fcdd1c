//! A 32-bit monotonic time base built from two chained 16-bit up-counters.
//!
//! The low counter's overflow clocks the high counter, so together they form
//! one 32-bit tick count. This crate holds the time values (`Instant`,
//! `Duration`), the tearing-safe decision that turns three register reads
//! into an `Instant`, and the reset plan for the counter pair, each with a
//! contract proved by Verus. Register access itself is left to the caller.

pub mod duration;
pub mod instant;
pub mod counters;
pub mod clock;

pub use duration::Duration;
pub use instant::Instant;
pub use counters::{Counter, CounterOp, CounterPair};
pub use clock::{Fraction, LinkedTim2Tim3};
