//! Control logic for a three-channel light emitter driven by time-division
//! multiplexing.
//!
//! The emitter's channels (red, green, blue) can only be switched fully on or
//! off; persistence of vision turns precisely timed on/off pulses into
//! apparent brightness. An operator tunes per-channel brightness and the
//! overall refresh rate through one analog sensor gated by two buttons.
//!
//! This crate holds the verified core: the quantizer that turns a raw sensor
//! sample into a discrete level, the scheduler arithmetic that derives pulse
//! timings from a brightness level and a frame rate, the mode-selecting input
//! state machine, and the lock-guarded configuration store that the input
//! side writes and the scheduler reads. Hardware access (pins, sensor,
//! buttons, timed waits) lives outside, handing this crate plain values.

pub mod knob;
pub mod levels;
pub mod rgb;
pub mod store;
pub mod ui;

use vstd::prelude::*;

verus! {

/// Number of brightness levels per channel; levels range over `0..LEVELS`.
pub const LEVELS: u32 = 16;

/// Full-scale divisor of the sensor: a clamped raw sample of this value or
/// above maps to the top level.
pub const FULL_SCALE: u32 = 10000;

/// Margin of the quantizer's affine transform: stretches the usable sensor
/// travel so both extreme levels are reachable before the physical end-stops.
pub const QUANT_MARGIN: u32 = 2;

/// Poll cadence of the input side, in milliseconds.
pub const POLL_INTERVAL_MS: u64 = 50;

/// Frame rate the shared configuration starts with.
pub const DEFAULT_FRAME_RATE: u64 = 100;

/// Base and step of the level-to-frame-rate mapping, in frames per second.
pub const FRAME_RATE_STEP: u64 = 10;

/// Highest frame rate whose microsecond tick is still nonzero
/// (`1_000_000 / (3 * LEVELS * MAX_FRAME_RATE) == 1`); the store rejects
/// rates above it rather than truncate them to a zero tick.
pub const MAX_FRAME_RATE: u64 = 20833;

} // verus!
