//! Temperatures on the absolute scale (`Kelvin`) and on two offset scales
//! (`Celcius`, `Fahrenheit`).
//!
//! Every value holds its magnitude on the absolute scale, as the bit pattern
//! of an IEEE-754 binary64 number, and that magnitude is never below absolute
//! zero. The arithmetic between a scale's own number and the absolute
//! magnitude is floating point and is done by the caller; what is decided here
//! is the clamping at absolute zero, equality, ordering and the conversions
//! between the three types.
pub mod binary64;
pub mod temperature;

pub use temperature::{Celcius, Fahrenheit, Kelvin};
