//! Cooldown mechanism.
//!
//! A [`Cooldown`] remembers when it was last reset and is over once its fixed
//! duration has elapsed. Timestamps are plain unsigned numbers handed in by
//! the caller (for example milliseconds of a monotonic clock); the library
//! never reads a clock itself, so every operation is deterministic in its
//! arguments.

use vstd::prelude::*;

verus! {

/// A cooldown token.
///
/// The token keeps track of the cooldown state: the fixed `duration` and the
/// timestamp `last_reset` of the most recent reset. A token is created in the
/// not-ready state, as if it had just been reset.
#[derive(Clone, Copy, Debug, PartialEq, Eq)]
pub struct Cooldown {
    /// How long the token must cool down after a reset.
    pub duration: u64,
    /// When the token was last reset.
    pub last_reset: u64,
}

impl Cooldown {
    /// Time elapsed at `now` since the last reset, saturating at zero for a
    /// timestamp that lies before the last reset.
    pub open spec fn spec_elapsed(&self, now: u64) -> int {
        if now >= self.last_reset {
            now - self.last_reset
        } else {
            0
        }
    }

    /// Whether the cooldown is over at `now`.
    pub open spec fn spec_is_over(&self, now: u64) -> bool {
        self.spec_elapsed(now) >= self.duration
    }

    /// The token as it looks right after a reset at `now`.
    pub open spec fn spec_reset(&self, now: u64) -> Cooldown {
        Cooldown { duration: self.duration, last_reset: now }
    }

    /// Creates a new cooldown token with the given duration.
    ///
    /// The token starts in the not-ready state: a full `duration` must elapse
    /// past `now` before it first fires.
    pub fn new(duration: u64, now: u64) -> (token: Cooldown)
        ensures
            token == (Cooldown { duration, last_reset: now }),
    {
        Cooldown { duration, last_reset: now }
    }

    /// Resets the cooldown token.
    pub fn reset(&mut self, now: u64)
        ensures
            *final(self) == old(self).spec_reset(now),
    {
        self.last_reset = now;
    }

    /// Returns true if the cooldown is over.
    pub fn is_over(&self, now: u64) -> (over: bool)
        ensures
            over == self.spec_is_over(now),
    {
        if now >= self.last_reset {
            now - self.last_reset >= self.duration
        } else {
            self.duration == 0
        }
    }

    /// Consumes the timer: if the cooldown is over at `now`, the token is
    /// reset and `true` is returned, telling the caller to run the timed
    /// effect exactly once; otherwise nothing changes and `false` is
    /// returned.
    pub fn execute(&mut self, now: u64) -> (fired: bool)
        ensures
            fired == old(self).spec_is_over(now),
            fired ==> *final(self) == old(self).spec_reset(now),
            !fired ==> *final(self) == *old(self),
    {
        if self.is_over(now) {
            self.reset(now);
            true
        } else {
            false
        }
    }
}

/// The life cycle of a cooldown with a positive duration: right after a reset
/// at `reset_time` it is not over, and it stays not over at every instant
/// strictly before `reset_time + duration` — so the token fires at most once
/// per reset — while it is over at every instant from `reset_time + duration`
/// on.
pub proof fn lemma_cooldown_cycle(token: Cooldown, reset_time: u64, t: u64)
    requires
        token.last_reset == reset_time,
    ensures
        token.duration > 0 && t < reset_time + token.duration ==> !token.spec_is_over(t),
        t >= reset_time + token.duration ==> token.spec_is_over(t),
{
}

/// Once a cooldown is over it stays over at every later instant, so a token
/// that became ready cannot become unready again without a reset.
pub proof fn lemma_is_over_monotonic(token: Cooldown, t1: u64, t2: u64)
    requires
        t1 <= t2,
        token.spec_is_over(t1),
    ensures
        token.spec_is_over(t2),
{
}

} // verus!
