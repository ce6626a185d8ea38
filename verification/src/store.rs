//! The shared configuration store: the one mutable resource the input side
//! and the scheduler share.
//!
//! The brightness triple and the frame rate each sit in their own
//! reader-writer lock. An accessor holds a lock only for the duration of one
//! copy or replace — never across a wait — and always reads or replaces the
//! brightness triple as a whole, so a reader can never observe a triple
//! mixing elements of two different writes. Each lock carries an invariant
//! the verifier enforces on every release: levels stay in range, and the
//! frame rate stays strictly positive (a rate of zero would fault the
//! scheduler's tick division), and within the representable band.

use vstd::prelude::*;
use vstd::rwlock::{RwLock, RwLockPredicate};
use crate::levels::ChannelLevels;
use crate::{DEFAULT_FRAME_RATE, LEVELS, MAX_FRAME_RATE};

verus! {

/// Invariant of the brightness lock: the stored triple is well-formed.
pub struct LevelsInv;

impl RwLockPredicate<ChannelLevels> for LevelsInv {
    open spec fn inv(self, v: ChannelLevels) -> bool {
        v.wf()
    }
}

/// Invariant of the frame-rate lock: the stored rate is strictly positive
/// and no higher than [`MAX_FRAME_RATE`].
pub struct FrameRateInv;

impl RwLockPredicate<u64> for FrameRateInv {
    open spec fn inv(self, v: u64) -> bool {
        1 <= v <= MAX_FRAME_RATE
    }
}

/// Which frame rate an update request leaves in the store: the requested
/// rate if it is valid, the prior rate otherwise (the update is rejected,
/// never truncated or let through).
pub open spec fn spec_accept_frame_rate(current: u64, requested: u64) -> u64 {
    if 1 <= requested <= MAX_FRAME_RATE {
        requested
    } else {
        current
    }
}

/// Validate a requested frame rate against the prior one: a rate outside
/// `1..=MAX_FRAME_RATE` is rejected and the prior rate kept.
pub fn accept_frame_rate(current: u64, requested: u64) -> (r: u64)
    requires
        1 <= current <= MAX_FRAME_RATE,
    ensures
        r == spec_accept_frame_rate(current, requested),
        1 <= r <= MAX_FRAME_RATE,
{
    if 1 <= requested && requested <= MAX_FRAME_RATE {
        requested
    } else {
        current
    }
}

/// Concurrency-safe holder of the current brightness triple and frame rate,
/// written by the input side and read by the scheduler.
pub struct SharedConfigStore {
    levels: RwLock<ChannelLevels, LevelsInv>,
    frame_rate: RwLock<u64, FrameRateInv>,
}

impl SharedConfigStore {
    /// A store holding the startup defaults: every channel at full
    /// brightness, the default frame rate.
    pub fn new() -> (s: SharedConfigStore)
    {
        let levels = RwLock::new(ChannelLevels::splat(LEVELS - 1), Ghost(LevelsInv));
        let frame_rate = RwLock::new(DEFAULT_FRAME_RATE, Ghost(FrameRateInv));
        SharedConfigStore { levels, frame_rate }
    }

    /// Atomically read the whole brightness triple.
    pub fn get_rgb_levels(&self) -> (r: ChannelLevels)
        ensures
            r.wf(),
    {
        let handle = self.levels.acquire_read();
        let r = *handle.borrow();
        handle.release_read();
        r
    }

    /// Atomically replace the whole brightness triple: a concurrent reader
    /// sees either the old triple or the new one, never a mix.
    pub fn set_rgb_levels(&self, new_levels: ChannelLevels)
        requires
            new_levels.wf(),
    {
        let (_, handle) = self.levels.acquire_write();
        handle.release_write(new_levels);
    }

    /// Atomically read the frame rate. The lock's invariant guarantees the
    /// result is one the scheduler can divide by.
    pub fn get_frame_rate(&self) -> (r: u64)
        ensures
            1 <= r <= MAX_FRAME_RATE,
    {
        let handle = self.frame_rate.acquire_read();
        let r = *handle.borrow();
        handle.release_read();
        r
    }

    /// Atomically replace the frame rate. An invalid rate (zero, or beyond
    /// [`MAX_FRAME_RATE`]) is rejected and the prior rate kept, per
    /// [`accept_frame_rate`].
    pub fn set_frame_rate(&self, new_rate: u64)
    {
        let (current, handle) = self.frame_rate.acquire_write();
        let accepted = accept_frame_rate(current, new_rate);
        handle.release_write(accepted);
    }
}

/// The no-tearing law of the store, over the cooperative interleaving model:
/// one writer and one reader take turns in an arbitrary order (`schedule`
/// says whose turn each step is: `true` the writer's, `false` the reader's),
/// and each turn is one whole-triple access, as the lock makes it. Every
/// triple the reader observes is the initial one or one the writer wrote
/// whole — never an element-wise mix of two writes.
pub fn simulate_interleaving(
    init: ChannelLevels,
    writes: &Vec<ChannelLevels>,
    schedule: &Vec<bool>,
) -> (observed: Vec<ChannelLevels>)
    ensures
        forall|k: int|
            0 <= k < observed.len() ==> #[trigger] observed[k] == init || exists|j: int|
                0 <= j < writes.len() && observed[k] == writes[j],
{
    let mut current = init;
    let mut next_write: usize = 0;
    let mut observed: Vec<ChannelLevels> = Vec::new();
    let mut i: usize = 0;
    while i < schedule.len()
        invariant
            next_write <= writes.len(),
            current == init || exists|j: int|
                0 <= j < writes.len() && current == #[trigger] writes[j],
            forall|k: int|
                0 <= k < observed.len() ==> #[trigger] observed[k] == init || exists|
                    j: int,
                |
                    0 <= j < writes.len() && observed[k] == writes[j],
        decreases schedule.len() - i,
    {
        if schedule[i] {
            if next_write < writes.len() {
                current = writes[next_write];
                next_write = next_write + 1;
            }
        } else {
            observed.push(current);
        }
        i = i + 1;
    }
    observed
}

} // verus!
