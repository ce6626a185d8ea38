//! The level quantizer: one raw analog sample in, one discrete level out.
//!
//! The sensor hands the system a signed raw sample. Its magnitude is clamped
//! to `0..=0x7fff`, scaled against the full-scale divisor, and put through an
//! affine transform whose margin stretches the usable travel so that both the
//! bottom and the top level are reachable before the sensor's physical
//! end-stops. Reading the sensor itself is hardware work and stays outside;
//! this module holds the pure, total mapping.

use vstd::prelude::*;
use crate::{FULL_SCALE, LEVELS, QUANT_MARGIN};

verus! {

/// A raw sample clamped to `0..=0x7fff`: negatives become 0, larger values
/// saturate.
pub open spec fn spec_clamp_raw(raw: int) -> int {
    if raw < 0 {
        0
    } else if raw > 0x7fff {
        0x7fff
    } else {
        raw
    }
}

/// The discrete level a raw sample quantizes to:
/// `floor(clamp((LEVELS + QUANT_MARGIN) * clamped / FULL_SCALE - QUANT_MARGIN, 0, LEVELS - 1))`,
/// written over integers (the division is the floor).
pub open spec fn spec_quantize(raw: int) -> int {
    let scaled = (LEVELS + QUANT_MARGIN) * spec_clamp_raw(raw);
    let offset = QUANT_MARGIN * FULL_SCALE;
    if scaled <= offset {
        0
    } else if (scaled - offset) / (FULL_SCALE as int) >= LEVELS - 1 {
        (LEVELS - 1) as int
    } else {
        (scaled - offset) / (FULL_SCALE as int)
    }
}

/// Quantize one raw analog sample to a brightness level.
///
/// Total over all samples, negatives and out-of-range values included:
/// out-of-range input is clamped, never rejected.
pub fn measure_level(raw: i32) -> (level: u32)
    ensures
        level == spec_quantize(raw as int),
        level < LEVELS,
{
    let clamped: u32 = if raw < 0 {
        0
    } else if raw > 0x7fff {
        0x7fff
    } else {
        raw as u32
    };
    let scaled: u32 = (LEVELS + QUANT_MARGIN) * clamped;
    let offset: u32 = QUANT_MARGIN * FULL_SCALE;
    if scaled <= offset {
        0
    } else {
        let level: u32 = (scaled - offset) / FULL_SCALE;
        if level >= LEVELS - 1 {
            LEVELS - 1
        } else {
            level
        }
    }
}

/// Boundary behaviour of the quantizer: a zero sample gives the bottom
/// level, and any sample at or above the full-scale divisor gives the top
/// level.
pub proof fn lemma_quantizer_boundaries(raw: int)
    ensures
        spec_quantize(0) == 0,
        raw >= FULL_SCALE ==> spec_quantize(raw) == LEVELS - 1,
{
}

/// The quantizer is total and in range: every sample, however far out of
/// range, lands in `0..LEVELS`.
pub proof fn lemma_quantizer_in_range(raw: int)
    ensures
        0 <= spec_quantize(raw) < LEVELS,
{
}

} // verus!
