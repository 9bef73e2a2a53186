//! Core of a small real-time synthesis engine, in fixed-point arithmetic.
//!
//! Every real quantity (a sample, an amount, a gain, a frequency in hertz) is
//! an `i64` counted in millionths: the value `v` stands for `v / 1_000_000`.
//! Times are whole microseconds or milliseconds, as each item says. What the
//! engine cannot do on integers (the sine itself, the `tanh` shaper, the sound
//! device) is left to the caller, which drives the engine sample by sample.

pub mod fixed;
pub mod generator;
pub mod effects;
pub mod envelope;
pub mod registry;
pub mod engine;
