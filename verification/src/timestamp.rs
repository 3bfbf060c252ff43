//! Time as the library sees it: whole nanoseconds.
//!
//! The caller samples its clock once per frame and hands the sample in. Nothing
//! here reads a clock.

use vstd::prelude::*;

verus! {

pub const NANOS_PER_SEC: u64 = 1_000_000_000;

pub const NANOS_PER_MILLI: u64 = 1_000_000;

/// A length of time in whole nanoseconds.
#[derive(Clone, Copy, Debug, PartialEq, Eq, Structural)]
pub struct Duration {
    pub nanos: u64,
}

impl Duration {
    pub fn zero() -> (d: Duration)
        ensures
            d.nanos == 0,
    {
        Duration { nanos: 0 }
    }

    /// The largest number of milliseconds that `from_millis` can hold.
    pub const MAX_MILLIS: u64 = 18_446_744_073_709;

    pub fn from_nanos(nanos: u64) -> (d: Duration)
        ensures
            d.nanos == nanos,
    {
        Duration { nanos }
    }

    pub fn from_millis(millis: u64) -> (d: Duration)
        requires
            millis <= Duration::MAX_MILLIS,
        ensures
            d.nanos == millis * NANOS_PER_MILLI,
    {
        Duration { nanos: millis * NANOS_PER_MILLI }
    }

    pub fn as_nanos(&self) -> (nanos: u64)
        ensures
            nanos == self.nanos,
    {
        self.nanos
    }

    /// The whole seconds in this length of time.
    pub fn as_secs(&self) -> (secs: u64)
        ensures
            secs == self.nanos / NANOS_PER_SEC,
    {
        self.nanos / NANOS_PER_SEC
    }

    /// What is left of this length of time below its whole seconds.
    pub fn subsec_nanos(&self) -> (nanos: u64)
        ensures
            nanos == self.nanos % NANOS_PER_SEC,
    {
        self.nanos % NANOS_PER_SEC
    }

    pub fn is_zero(&self) -> (zero: bool)
        ensures
            zero == (self.nanos == 0),
    {
        self.nanos == 0
    }

    /// The sum of two lengths of time, unless it does not fit.
    pub fn checked_add(self, other: Duration) -> (sum: Option<Duration>)
        ensures
            sum == if self.nanos + other.nanos <= u64::MAX {
                Some(Duration { nanos: (self.nanos + other.nanos) as u64 })
            } else {
                None::<Duration>
            },
    {
        match self.nanos.checked_add(other.nanos) {
            Some(nanos) => Some(Duration { nanos }),
            None => None,
        }
    }
}

/// A sample of the caller's clock: whole nanoseconds since that clock's origin.
#[derive(Clone, Copy, Debug, PartialEq, Eq, Structural)]
pub struct Timestamp {
    pub nanos: u64,
}

impl Timestamp {
    pub fn from_nanos(nanos: u64) -> (t: Timestamp)
        ensures
            t.nanos == nanos,
    {
        Timestamp { nanos }
    }

    pub fn as_nanos(&self) -> (nanos: u64)
        ensures
            nanos == self.nanos,
    {
        self.nanos
    }

    /// The whole seconds between the clock's origin and this sample.
    pub fn as_secs(&self) -> (secs: u64)
        ensures
            secs == self.nanos / NANOS_PER_SEC,
    {
        self.nanos / NANOS_PER_SEC
    }

    /// The time that `earlier` lies before this sample.
    pub open spec fn since(self, earlier: Timestamp) -> Duration
        recommends
            earlier.nanos <= self.nanos,
    {
        Duration { nanos: (self.nanos - earlier.nanos) as u64 }
    }

    /// The time from `earlier` to this sample, for a caller that knows the
    /// order of the two.
    pub fn elapsed_since(&self, earlier: Timestamp) -> (elapsed: Duration)
        requires
            earlier.nanos <= self.nanos,
        ensures
            elapsed == self.since(earlier),
    {
        Duration { nanos: self.nanos - earlier.nanos }
    }

    /// The time from `earlier` to this sample, or `None` where `earlier` is
    /// in fact later.
    pub fn duration_since(&self, earlier: Timestamp) -> (elapsed: Option<Duration>)
        ensures
            elapsed == if earlier.nanos <= self.nanos {
                Some(self.since(earlier))
            } else {
                None::<Duration>
            },
    {
        if earlier.nanos <= self.nanos {
            Some(Duration { nanos: self.nanos - earlier.nanos })
        } else {
            None
        }
    }
}

} // verus!
