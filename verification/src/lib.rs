//! Sunrise and sunset on the civil calendar.
//!
//! The crate holds the exact, integer side of a sunrise/sunset calculation:
//! calendar dates and clock times, the reading of the two input strings, the
//! integer quantities from which the fractional year angle is formed, and the
//! conversion of minute counts into instants on the observer's date. The
//! trigonometric stage in between works on IEEE-754 doubles and is left to the
//! caller, which hands its outcome back as a [`solar::SolarEvents`] value.

pub mod calendar;
pub mod clock;
pub mod error;
pub mod text;
pub mod solar;
