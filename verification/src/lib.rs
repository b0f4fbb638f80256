//! Verified core of two spatial widgets: an exposure push-button and a cursor
//! proxy.
//!
//! All quantities are fixed-point integers. Lengths are micrometres, times are
//! microseconds, dimensionless factors are millionths, and the exposure
//! accumulator counts in steps of 10^-12 so that a rate in millionths per
//! second times a duration in microseconds is exact.
pub mod exposure;
pub mod wide;
pub mod gamma;
pub mod geometry;
pub mod cursor;
pub mod emission;
pub mod close_button;
pub mod hysteresis;
