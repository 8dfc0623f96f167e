//! Validation of watt-hour pulses read from a utility meter's optical output.
//!
//! The meter flashes once per watt-hour; each flash shows up on the monitored
//! line as a pulse roughly 25 ms wide. This crate decides which level
//! transitions are such pulses, measures the spacing between accepted pulses
//! and turns it into a power estimate. Reading the line and storing the
//! accepted pulses is left to the caller.

pub mod clock;
pub mod edge;
pub mod monitor;
pub mod power;
pub mod validator;
