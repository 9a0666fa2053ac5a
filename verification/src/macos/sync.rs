//! Time and waiting on macOS.

use vstd::prelude::*;

use crate::platform::{ImmediatelyWokenUp, UnblockedOrTimedOut, WakePlan};

verus! {

/// The highest time that the host can tell, in nanoseconds.
pub const MAX_NANOS: u128 = 9_223_372_036_854_775_807_999_999_999;

/// A point in time, in nanoseconds since some point before.
#[derive(Clone, Copy, Debug, PartialEq, Eq, Structural)]
pub struct Instant {
    pub nanos: u128,
}

impl Instant {
    /// The nanoseconds since an earlier instant; `None` if it is not earlier.
    pub open spec fn since(self, earlier: Instant) -> Option<u128> {
        if self.nanos >= earlier.nanos {
            Some((self.nanos - earlier.nanos) as u128)
        } else {
            None
        }
    }

    /// The instant so many nanoseconds later, if the host can tell it.
    pub open spec fn plus(self, nanos: u128) -> Option<Instant> {
        if self.nanos + nanos <= MAX_NANOS {
            Some(Instant { nanos: (self.nanos + nanos) as u128 })
        } else {
            None
        }
    }

    /// The nanoseconds since an earlier instant; `None` if it is not earlier.
    pub fn checked_duration_since(&self, earlier: &Instant) -> (nanos: Option<u128>)
        ensures
            nanos == self.since(*earlier),
    {
        self.nanos.checked_sub(earlier.nanos)
    }

    /// The instant so many nanoseconds later, if the host can tell it.
    pub fn checked_add(&self, nanos: u128) -> (later: Option<Instant>)
        ensures
            later == self.plus(nanos),
    {
        match self.nanos.checked_add(nanos) {
            Some(sum) => if sum <= MAX_NANOS {
                Some(Instant { nanos: sum })
            } else {
                None
            },
            None => None,
        }
    }
}

/// Adding what has passed since an instant leads back to the later one.
pub proof fn durations_add_up(earlier: Instant, later: Instant, nanos: u128)
    requires
        later.nanos <= MAX_NANOS,
        later.since(earlier) == Some(nanos),
    ensures
        earlier.plus(nanos) == Some(later),
{
}

/// What has passed since an instant is what was added to it. Time is refused only
/// past what the host can tell, and what has passed only of an instant that was
/// not before.
pub proof fn durations_are_what_was_added(earlier: Instant, nanos: u128, other: Instant)
    ensures
        earlier.plus(nanos) matches Some(later) ==> later.since(earlier) == Some(nanos)
            && later.nanos - earlier.nanos == nanos,
        earlier.plus(nanos) is None <==> earlier.nanos + nanos > MAX_NANOS,
        other.since(earlier) is None <==> other.nanos < earlier.nanos,
        earlier.since(earlier) == Some(0u128),
{
}

/// A time of day, in nanoseconds since the epoch of Unix.
#[derive(Clone, Copy, Debug, PartialEq, Eq, Structural)]
pub struct SystemTime {
    pub nanos: i128,
}

impl SystemTime {
    /// The epoch of Unix.
    pub fn unix_epoch() -> (time: SystemTime)
        ensures
            time.nanos == 0,
    {
        SystemTime { nanos: 0 }
    }

    /// The time since an earlier one, or the time until it if it is later.
    pub fn duration_since(&self, earlier: &SystemTime) -> (nanos: Result<u128, u128>)
        requires
            -(MAX_NANOS as int) <= self.nanos <= MAX_NANOS,
            -(MAX_NANOS as int) <= earlier.nanos <= MAX_NANOS,
        ensures
            nanos == if self.nanos >= earlier.nanos {
                Ok::<u128, u128>((self.nanos - earlier.nanos) as u128)
            } else {
                Err((earlier.nanos - self.nanos) as u128)
            },
    {
        if self.nanos >= earlier.nanos {
            Ok((self.nanos - earlier.nanos) as u128)
        } else {
            Err((earlier.nanos - self.nanos) as u128)
        }
    }
}

/// A value on which threads wait.
#[derive(Clone, Copy, Debug, PartialEq, Eq, Structural)]
pub struct RawMutex {
    pub value: u32,
}

impl RawMutex {
    /// A value of zero.
    pub fn new() -> (mutex: RawMutex)
        ensures
            mutex.value == 0,
    {
        RawMutex { value: 0 }
    }

    /// Which threads are woken up where `n` are to be. How many there were is
    /// not known.
    pub fn wake_many(n: usize) -> (plan: WakePlan)
        ensures
            plan == if n >= i32::MAX {
                WakePlan::All
            } else {
                WakePlan::Each(n)
            },
    {
        if n >= i32::MAX as usize {
            WakePlan::All
        } else {
            WakePlan::Each(n)
        }
    }

    /// Whether a thread that found `expected` has to wait: not where the value
    /// has changed meanwhile.
    pub fn block(&self, expected: u32) -> (wait: Option<ImmediatelyWokenUp>)
        ensures
            wait == if self.value != expected {
                Some(ImmediatelyWokenUp)
            } else {
                None
            },
    {
        if self.value != expected {
            Some(ImmediatelyWokenUp)
        } else {
            None
        }
    }

    /// How a wait ended.
    pub fn wait_outcome(timed_out: bool) -> (outcome: UnblockedOrTimedOut)
        ensures
            outcome == if timed_out {
                UnblockedOrTimedOut::TimedOut
            } else {
                UnblockedOrTimedOut::Unblocked
            },
    {
        if timed_out {
            UnblockedOrTimedOut::TimedOut
        } else {
            UnblockedOrTimedOut::Unblocked
        }
    }
}

} // verus!
