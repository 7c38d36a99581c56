//! The breaker that stops token transfers after repeated failures.

use vstd::prelude::*;

use crate::types::NavinError;

verus! {

/// How many failures in a row open the breaker.
pub const FAILURE_THRESHOLD: u32 = 5;

/// How many seconds an open breaker waits before it lets a transfer try again.
pub const RECOVERY_TIMEOUT_SECONDS: u64 = 3_600;

/// How many transfers may try again before one of them has succeeded.
pub const HALF_OPEN_MAX_REQUESTS: u32 = 3;

#[derive(Clone, Copy, Debug, PartialEq, Eq, Structural)]
pub enum CircuitBreakerState {
    Closed,
    Open,
    HalfOpen,
}

/// The breaker's state: `opened_at` matters while it is open, `half_open_requests` while it is
/// half open.
#[derive(Clone, Copy, Debug, PartialEq, Eq, Structural)]
pub struct CircuitBreakerTracker {
    pub state: CircuitBreakerState,
    pub failure_count: u32,
    pub opened_at: u64,
    pub half_open_requests: u32,
}

impl CircuitBreakerTracker {
    /// A breaker that has seen no failure.
    pub open spec fn reset() -> CircuitBreakerTracker {
        CircuitBreakerTracker {
            state: CircuitBreakerState::Closed,
            failure_count: 0,
            opened_at: 0,
            half_open_requests: 0,
        }
    }

    /// Whether a transfer may be tried at `now`.
    pub open spec fn allows(self, now: u64) -> bool {
        match self.state {
            CircuitBreakerState::Closed => true,
            CircuitBreakerState::Open => self.opened_at + RECOVERY_TIMEOUT_SECONDS <= now,
            CircuitBreakerState::HalfOpen => self.half_open_requests < HALF_OPEN_MAX_REQUESTS,
        }
    }

    /// The breaker after a transfer has been let through.
    pub open spec fn admitted(self) -> CircuitBreakerTracker {
        match self.state {
            CircuitBreakerState::Closed => self,
            CircuitBreakerState::Open => CircuitBreakerTracker {
                state: CircuitBreakerState::HalfOpen,
                half_open_requests: 1,
                ..self
            },
            CircuitBreakerState::HalfOpen => CircuitBreakerTracker {
                half_open_requests: (self.half_open_requests + 1) as u32,
                ..self
            },
        }
    }

    /// The number of failures in a row, one later.
    pub open spec fn failures_after_one_more(self) -> u32 {
        if self.failure_count < u32::MAX {
            (self.failure_count + 1) as u32
        } else {
            u32::MAX
        }
    }

    /// The breaker after a transfer has failed at `now`.
    pub open spec fn failed(self, now: u64) -> CircuitBreakerTracker {
        let count = self.failures_after_one_more();
        if !(self.state is Closed) || count >= FAILURE_THRESHOLD {
            CircuitBreakerTracker {
                state: CircuitBreakerState::Open,
                failure_count: count,
                opened_at: now,
                half_open_requests: 0,
            }
        } else {
            CircuitBreakerTracker { failure_count: count, ..self }
        }
    }

    /// The breaker after `count` failures at `now`.
    pub open spec fn failed_times(self, now: u64, count: nat) -> CircuitBreakerTracker
        decreases count,
    {
        if count == 0 {
            self
        } else {
            self.failed_times(now, (count - 1) as nat).failed(now)
        }
    }

    pub fn new() -> (tracker: CircuitBreakerTracker)
        ensures
            tracker == CircuitBreakerTracker::reset(),
    {
        CircuitBreakerTracker {
            state: CircuitBreakerState::Closed,
            failure_count: 0,
            opened_at: 0,
            half_open_requests: 0,
        }
    }

    /// Lets a transfer through at `now`, or refuses it.
    pub fn let_through(&mut self, now: u64) -> (r: Result<(), NavinError>)
        ensures
            old(self).allows(now) ==> r == Ok::<(), NavinError>(()) && *final(self) == old(
                self,
            ).admitted(),
            !old(self).allows(now) ==> r == Err::<(), NavinError>(NavinError::CircuitBreakerOpen)
                && *final(self) == *old(self),
    {
        match self.state {
            CircuitBreakerState::Closed => Ok(()),
            CircuitBreakerState::Open => {
                if self.opened_at <= now && now - self.opened_at >= RECOVERY_TIMEOUT_SECONDS {
                    self.state = CircuitBreakerState::HalfOpen;
                    self.half_open_requests = 1;
                    Ok(())
                } else {
                    Err(NavinError::CircuitBreakerOpen)
                }
            },
            CircuitBreakerState::HalfOpen => {
                if self.half_open_requests < HALF_OPEN_MAX_REQUESTS {
                    self.half_open_requests = self.half_open_requests + 1;
                    Ok(())
                } else {
                    Err(NavinError::CircuitBreakerOpen)
                }
            },
        }
    }

    /// Notes that a transfer has succeeded.
    pub fn record_success(&mut self)
        ensures
            *final(self) == CircuitBreakerTracker::reset(),
    {
        *self = CircuitBreakerTracker::new();
    }

    /// Notes that a transfer has failed at `now`.
    pub fn record_failure(&mut self, now: u64)
        ensures
            *final(self) == old(self).failed(now),
    {
        if self.failure_count < u32::MAX {
            self.failure_count = self.failure_count + 1;
        }
        let closed = match self.state {
            CircuitBreakerState::Closed => true,
            _ => false,
        };
        if !closed || self.failure_count >= FAILURE_THRESHOLD {
            self.state = CircuitBreakerState::Open;
            self.opened_at = now;
            self.half_open_requests = 0;
        }
    }
}

/// While fewer failures than the threshold have come in a row, a breaker that started afresh
/// stays closed.
pub proof fn stays_closed_below_threshold(now: u64, count: nat)
    requires
        count < FAILURE_THRESHOLD,
    ensures
        CircuitBreakerTracker::reset().failed_times(now, count) == (CircuitBreakerTracker {
            failure_count: count as u32,
            ..CircuitBreakerTracker::reset()
        }),
    decreases count,
{
    if count > 0 {
        stays_closed_below_threshold(now, (count - 1) as nat);
    }
}

/// Repeated failures open the breaker: once the threshold is reached, a breaker that started
/// afresh is open, and it lets no transfer through until the timeout has passed.
pub proof fn opens_after_repeated_failures(now: u64, count: nat, later: u64)
    requires
        count >= FAILURE_THRESHOLD,
        later < now + RECOVERY_TIMEOUT_SECONDS,
    ensures
        CircuitBreakerTracker::reset().failed_times(now, count).state is Open,
        !CircuitBreakerTracker::reset().failed_times(now, count).allows(later),
    decreases count,
{
    if count == FAILURE_THRESHOLD {
        stays_closed_below_threshold(now, (count - 1) as nat);
    } else {
        opens_after_repeated_failures(now, (count - 1) as nat, later);
    }
}

} // verus!
