//! The per-channel brightness triple and its invariant.

use vstd::prelude::*;
use crate::LEVELS;

verus! {

/// Ordered triple of brightness levels, one per channel.
///
/// Invariant ([`ChannelLevels::wf`]): every element lies in `0..LEVELS`.
/// Updates are all-or-nothing per channel: [`ChannelLevels::with_channel`]
/// replaces exactly one element and leaves the others untouched.
#[derive(Clone, Copy, PartialEq, Eq, Structural, Debug)]
pub struct ChannelLevels {
    pub red: u32,
    pub green: u32,
    pub blue: u32,
}

impl ChannelLevels {
    /// Every channel's level lies in `0..LEVELS`.
    pub open spec fn wf(self) -> bool {
        self.red < LEVELS && self.green < LEVELS && self.blue < LEVELS
    }

    /// The level of the channel with index `i`, in the fixed order
    /// red (0), green (1), blue (2).
    pub open spec fn spec_channel(self, i: int) -> u32 {
        if i == 0 {
            self.red
        } else if i == 1 {
            self.green
        } else {
            self.blue
        }
    }

    /// The triple with channel `i` replaced by `level`.
    pub open spec fn spec_with_channel(self, i: int, level: u32) -> ChannelLevels {
        if i == 0 {
            ChannelLevels { red: level, ..self }
        } else if i == 1 {
            ChannelLevels { green: level, ..self }
        } else {
            ChannelLevels { blue: level, ..self }
        }
    }

    /// The triple with every channel at `level`.
    pub fn splat(level: u32) -> (r: ChannelLevels)
        ensures
            r.red == level,
            r.green == level,
            r.blue == level,
    {
        ChannelLevels { red: level, green: level, blue: level }
    }

    /// Read the channel with index `idx` (0 = red, 1 = green, 2 = blue).
    pub fn channel(&self, idx: usize) -> (r: u32)
        requires
            idx < 3,
        ensures
            r == self.spec_channel(idx as int),
    {
        match idx {
            0 => self.red,
            1 => self.green,
            _ => self.blue,
        }
    }

    /// Replace the channel with index `idx`, leaving the other two untouched.
    pub fn with_channel(&self, idx: usize, level: u32) -> (r: ChannelLevels)
        requires
            idx < 3,
        ensures
            r == self.spec_with_channel(idx as int, level),
    {
        match idx {
            0 => ChannelLevels { red: level, ..*self },
            1 => ChannelLevels { green: level, ..*self },
            _ => ChannelLevels { blue: level, ..*self },
        }
    }
}

} // verus!
