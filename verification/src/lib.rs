//! A star field in fixed-point arithmetic: stars that travel toward the
//! viewer, their perspective projection onto a window, and the travel speed
//! taken from the pointer's horizontal position.
//!
//! Every length is a whole number of steps, `UNIT` steps to one point of
//! screen distance, so every result is exact and the same on every machine.
pub mod mapping;
pub mod random;
pub mod shape;
pub mod star;
pub mod units;
pub mod universe;
