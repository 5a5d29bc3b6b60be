//! A frequency-modulation synthesis engine on fixed-point numbers.
//!
//! Every real quantity (a frequency in hertz, a ratio, an amplitude, a level,
//! a sample) is a signed 64-bit integer that counts units of 2^-32, and every
//! duration in seconds an unsigned one in the same unit. A phase is a fraction
//! of a turn, in units of 2^-32 of a turn, so that it wraps where a `u32` does.
//! The waveform is a table that the caller supplies; the engine itself only
//! adds, multiplies, divides and compares integers.

pub mod fixed;
pub mod wavetable;
pub mod oscillator;
pub mod envelope;
pub mod params;
pub mod control;
pub mod voice;
pub mod sample;
pub mod render;
