//! The multiplexing scheduler: from a brightness triple and a frame rate to
//! precisely timed on/off pulses per channel.
//!
//! One frame visits the channels in the fixed order red, green, blue. A
//! channel with level `l` is held on for `l` ticks and off for the remaining
//! `LEVELS - l`, so every channel occupies exactly `LEVELS` ticks and the
//! frame's length does not depend on the brightness distribution — that
//! constant timing is what keeps the output flicker-free while levels change.
//! This module computes the pulse plans; switching the outputs and waiting
//! out the durations is hardware work and stays outside.

use vstd::prelude::*;
use vstd::arithmetic::div_mod::{
    lemma_div_denominator, lemma_div_is_ordered_by_denominator, lemma_fundamental_div_mod,
    lemma_mod_division_less_than_divisor,
};
use vstd::arithmetic::mul::{
    lemma_mul_inequality, lemma_mul_is_distributive_add_other_way, lemma_mul_upper_bound,
};
use crate::levels::ChannelLevels;
use crate::{LEVELS, MAX_FRAME_RATE};

verus! {

/// Longest possible tick: one microsecond-resolution tick of the slowest
/// meaningful rate, `1_000_000 / (3 * LEVELS * 1)`.
pub const MAX_TICK_TIME_US: u64 = 20833;

/// Microseconds per multiplexing tick for a given frame rate: one frame is
/// `3 * LEVELS` ticks and lasts `1_000_000 / frame_rate` microseconds.
pub open spec fn spec_frame_tick_time(frame_rate: int) -> int {
    1_000_000int / (3 * frame_rate * (LEVELS as int))
}

/// What the scheduler does with one channel during one frame: switch it on
/// for `on_time_us` (only if `pulse`, a zero-length pulse is skipped), then
/// keep it off for `off_time_us`.
#[derive(Clone, Copy, PartialEq, Eq, Structural, Debug)]
pub struct StepPlan {
    /// Whether the channel is switched on at all this frame.
    pub pulse: bool,
    /// Microseconds the channel stays on.
    pub on_time_us: u64,
    /// Microseconds the channel then stays off.
    pub off_time_us: u64,
}

/// The multiplexing scheduler's state: the brightness snapshot it is
/// currently emitting and the tick length derived from the frame rate.
pub struct Rgb {
    /// Shadow copy of the brightness levels, refreshed once per frame from
    /// the shared configuration.
    pub levels: ChannelLevels,
    /// Microseconds per multiplexing tick.
    pub tick_time: u64,
}

impl Rgb {
    /// The levels are in range and the tick is one a valid frame rate can
    /// produce: nonzero, and no longer than the slowest rate's.
    pub open spec fn wf(self) -> bool {
        self.levels.wf() && 1 <= self.tick_time <= MAX_TICK_TIME_US
    }

    /// Microseconds per multiplexing tick for `frame_rate`:
    /// `1_000_000 / (3 * frame_rate * LEVELS)`.
    pub fn frame_tick_time(frame_rate: u64) -> (tick: u64)
        requires
            1 <= frame_rate <= MAX_FRAME_RATE,
        ensures
            tick == spec_frame_tick_time(frame_rate as int),
            1 <= tick <= MAX_TICK_TIME_US,
    {
        proof {
            lemma_div_is_ordered_by_denominator(
                1_000_000,
                48,
                3 * (frame_rate as int) * (LEVELS as int),
            );
            lemma_div_is_ordered_by_denominator(
                1_000_000,
                3 * (frame_rate as int) * (LEVELS as int),
                1_000_000,
            );
        }
        1_000_000 / (3 * frame_rate * (LEVELS as u64))
    }

    /// A scheduler that starts with every channel off, ticking at
    /// `frame_rate`.
    pub fn new(frame_rate: u64) -> (r: Rgb)
        requires
            1 <= frame_rate <= MAX_FRAME_RATE,
        ensures
            r.wf(),
            r.levels == (ChannelLevels { red: 0, green: 0, blue: 0 }),
            r.tick_time == spec_frame_tick_time(frame_rate as int),
    {
        let tick_time = Self::frame_tick_time(frame_rate);
        Rgb { levels: ChannelLevels::splat(0), tick_time }
    }

    /// Take over the latest configuration snapshot: replace the brightness
    /// levels and re-derive the tick from the frame rate.
    pub fn apply_snapshot(&mut self, levels: ChannelLevels, frame_rate: u64)
        requires
            levels.wf(),
            1 <= frame_rate <= MAX_FRAME_RATE,
        ensures
            final(self).wf(),
            final(self).levels == levels,
            final(self).tick_time == spec_frame_tick_time(frame_rate as int),
    {
        self.levels = levels;
        let expected_tick_time = Self::frame_tick_time(frame_rate);
        if self.tick_time != expected_tick_time {
            self.tick_time = expected_tick_time;
        }
    }

    /// The pulse plan for the channel with index `led` (0 = red, 1 = green,
    /// 2 = blue) at the current tick length.
    ///
    /// On-time and off-time always add up to exactly `LEVELS` ticks,
    /// whatever the level: every channel occupies the same share of the
    /// frame, which keeps the frame timing constant as brightness changes.
    /// The off phase never vanishes, since the level stays below `LEVELS`.
    pub fn step_plan(&self, led: usize) -> (plan: StepPlan)
        requires
            self.wf(),
            led < 3,
        ensures
            plan.pulse == (self.levels.spec_channel(led as int) > 0),
            plan.on_time_us == self.levels.spec_channel(led as int) * self.tick_time,
            plan.off_time_us == (LEVELS - self.levels.spec_channel(led as int))
                * self.tick_time,
            plan.on_time_us + plan.off_time_us == LEVELS * self.tick_time,
            plan.off_time_us >= 1,
    {
        let level = self.levels.channel(led);
        proof {
            lemma_mul_upper_bound(
                level as int,
                (LEVELS - 1) as int,
                self.tick_time as int,
                MAX_TICK_TIME_US as int,
            );
            lemma_mul_upper_bound(
                (LEVELS - level) as int,
                LEVELS as int,
                self.tick_time as int,
                MAX_TICK_TIME_US as int,
            );
            lemma_mul_is_distributive_add_other_way(
                self.tick_time as int,
                level as int,
                (LEVELS - level) as int,
            );
            lemma_mul_inequality(1, (LEVELS - level) as int, self.tick_time as int);
        }
        let on_time_us = (level as u64) * self.tick_time;
        let off_level = LEVELS - level;
        let off_time_us = (off_level as u64) * self.tick_time;
        StepPlan { pulse: level > 0, on_time_us, off_time_us }
    }

    /// One full frame: take over the given snapshot, then plan the three
    /// channels in the fixed order red, green, blue. The plans together
    /// cover exactly `3 * LEVELS` ticks.
    pub fn next_frame(&mut self, levels: ChannelLevels, frame_rate: u64) -> (plans: Vec<
        StepPlan,
    >)
        requires
            levels.wf(),
            1 <= frame_rate <= MAX_FRAME_RATE,
        ensures
            final(self).wf(),
            final(self).levels == levels,
            final(self).tick_time == spec_frame_tick_time(frame_rate as int),
            plans.len() == 3,
            forall|i: int|
                0 <= i < 3 ==> #[trigger] plans[i] == final(self).step_plan_spec(i),
            plans[0].on_time_us + plans[0].off_time_us + plans[1].on_time_us
                + plans[1].off_time_us + plans[2].on_time_us + plans[2].off_time_us == 3
                * LEVELS * final(self).tick_time,
    {
        self.apply_snapshot(levels, frame_rate);
        let p0 = self.step_plan(0);
        let p1 = self.step_plan(1);
        let p2 = self.step_plan(2);
        let plans = vec![p0, p1, p2];
        proof {
            assert(3 * LEVELS * self.tick_time == LEVELS * self.tick_time + LEVELS
                * self.tick_time + LEVELS * self.tick_time) by {
                lemma_mul_is_distributive_add_other_way(
                    self.tick_time as int,
                    2 * LEVELS as int,
                    LEVELS as int,
                );
                lemma_mul_is_distributive_add_other_way(
                    self.tick_time as int,
                    LEVELS as int,
                    LEVELS as int,
                );
            }
        }
        plans
    }

    /// The pulse plan [`Rgb::step_plan`] returns for channel `i`, as a value.
    pub open spec fn step_plan_spec(self, i: int) -> StepPlan {
        StepPlan {
            pulse: self.levels.spec_channel(i) > 0,
            on_time_us: (self.levels.spec_channel(i) * self.tick_time) as u64,
            off_time_us: ((LEVELS - self.levels.spec_channel(i)) * self.tick_time) as u64,
        }
    }
}

/// The frame-period law: for every valid frame rate, the `3 * LEVELS` ticks
/// of one frame add up to `1_000_000 / frame_rate` microseconds, short of it
/// only by the integer-division remainder, which is less than `3 * LEVELS`.
pub proof fn lemma_frame_period(frame_rate: u64)
    requires
        10 <= frame_rate <= 160,
        frame_rate % 10 == 0,
    ensures
        3 * LEVELS * spec_frame_tick_time(frame_rate as int) <= 1_000_000int / (
        frame_rate as int),
        1_000_000int / (frame_rate as int) - 3 * LEVELS * spec_frame_tick_time(
            frame_rate as int,
        ) <= 3 * LEVELS - 1,
{
    let fr = frame_rate as int;
    let tick = spec_frame_tick_time(fr);
    let q = 1_000_000int / fr;
    assert(3 * fr * (LEVELS as int) == fr * 48);
    lemma_div_denominator(1_000_000, fr, 48);
    assert(tick == q / 48);
    lemma_fundamental_div_mod(q, 48);
    lemma_mod_division_less_than_divisor(q, 48);
}

} // verus!
