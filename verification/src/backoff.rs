//! The delay between two attempts of a step.
//!
//! The interval starts at a quarter of a second and doubles with every
//! attempt that finds the store unavailable, up to one hour. The delay that is
//! actually waited is the interval shortened by a random part of at most half
//! of it, so that instances that started together do not come back together.

use vstd::prelude::*;

verus! {

/// The interval before the first retry, in milliseconds.
pub const INITIAL_INTERVAL_MS: u64 = 250;

/// The longest interval, in milliseconds.
pub const MAX_INTERVAL_MS: u64 = 3_600_000;

/// The interval that follows `interval`: twice as long, up to the maximum.
pub open spec fn grown(interval: nat) -> nat {
    if 2 * interval <= MAX_INTERVAL_MS {
        2 * interval
    } else {
        MAX_INTERVAL_MS as nat
    }
}

/// The delay for `interval` and a random `sample`: the interval less the
/// sample's remainder on division by half the interval plus one.
pub open spec fn jittered(interval: nat, sample: u64) -> nat {
    (interval - sample as nat % (interval / 2 + 1)) as nat
}

/// The interval after `retries` retries of one step: the initial interval,
/// grown once for each.
pub open spec fn interval_after(retries: nat) -> nat
    decreases retries,
{
    if retries == 0 {
        INITIAL_INTERVAL_MS as nat
    } else {
        grown(interval_after((retries - 1) as nat))
    }
}

/// Whether `interval` is one that a step's retries can reach.
pub open spec fn valid_interval(interval: nat) -> bool {
    INITIAL_INTERVAL_MS <= interval <= MAX_INTERVAL_MS
}

/// The retry state of one step.
#[derive(Clone, Copy, Debug)]
pub struct Backoff {
    interval_ms: u64,
}

impl Backoff {
    #[verifier::type_invariant]
    spec fn well_formed(self) -> bool {
        valid_interval(self.interval_ms as nat)
    }

    /// The interval that the next delay is taken from, in milliseconds.
    pub closed spec fn interval(self) -> nat {
        self.interval_ms as nat
    }

    /// The state before the first retry.
    pub fn new() -> (backoff: Backoff)
        ensures
            backoff.interval() == INITIAL_INTERVAL_MS,
    {
        Backoff { interval_ms: INITIAL_INTERVAL_MS }
    }

    /// The interval that the next delay is taken from, in milliseconds.
    pub fn interval_ms(&self) -> (interval_ms: u64)
        ensures
            interval_ms == self.interval(),
            valid_interval(self.interval()),
    {
        proof {
            use_type_invariant(self);
        }
        self.interval_ms
    }

    /// The delay before the next attempt, in milliseconds, for a random
    /// `sample`; the interval grows for the attempt after it.
    pub fn next_delay(&mut self, sample: u64) -> (delay_ms: u64)
        ensures
            delay_ms == jittered(old(self).interval(), sample),
            final(self).interval() == grown(old(self).interval()),
    {
        proof {
            use_type_invariant(&*self);
        }
        let interval: u64 = self.interval_ms;
        let delay_ms: u64 = interval - sample % (interval / 2 + 1);
        let doubled: u64 = if interval <= MAX_INTERVAL_MS / 2 {
            2 * interval
        } else {
            MAX_INTERVAL_MS
        };
        *self = Backoff { interval_ms: doubled };
        delay_ms
    }

    /// Goes back to the state before the first retry.
    pub fn reset(&mut self)
        ensures
            final(self).interval() == INITIAL_INTERVAL_MS,
    {
        *self = Backoff { interval_ms: INITIAL_INTERVAL_MS };
    }
}

/// A delay is never longer than its interval, and never shorter than half
/// of it.
pub proof fn lemma_delay_within_interval(interval: nat, sample: u64)
    ensures
        interval <= 2 * jittered(interval, sample),
        jittered(interval, sample) <= interval,
{
    let span = interval / 2 + 1;
    assert(0 <= sample as nat % span < span);
}

/// No delay is longer than the maximum interval.
pub proof fn lemma_delay_bounded(interval: nat, sample: u64)
    requires
        valid_interval(interval),
    ensures
        jittered(interval, sample) <= MAX_INTERVAL_MS,
        valid_interval(grown(interval)),
{
    lemma_delay_within_interval(interval, sample);
}

/// Until the interval has reached the maximum, each delay is at least as
/// long as the one before it, whatever the random samples are.
pub proof fn lemma_delays_grow(interval: nat, first: u64, second: u64)
    requires
        2 * interval <= MAX_INTERVAL_MS,
    ensures
        jittered(interval, first) <= jittered(grown(interval), second),
{
    lemma_delay_within_interval(interval, first);
    lemma_delay_within_interval(grown(interval), second);
}

/// The interval never shrinks from one retry to the next, and stays within
/// its bounds.
pub proof fn lemma_interval_monotone(retries: nat)
    ensures
        valid_interval(interval_after(retries)),
        interval_after(retries) <= interval_after(retries + 1),
    decreases retries,
{
    if retries > 0 {
        lemma_interval_monotone((retries - 1) as nat);
    }
    assert(interval_after(retries + 1) == grown(interval_after(retries)));
}

} // verus!
