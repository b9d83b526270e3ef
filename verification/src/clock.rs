//! Readings of a monotonic clock, as the caller takes them.

use vstd::prelude::*;

verus! {

/// The number of nanoseconds in one second.
pub const NANOS_PER_SEC: u128 = 1_000_000_000;

/// A reading of a monotonic clock: the nanoseconds that have passed since the
/// clock's origin. The provider never reads a clock itself; every operation
/// that depends on the time takes the reading as an argument.
#[derive(Clone, Copy, Debug, PartialEq, Eq, Structural)]
pub struct Timestamp {
    pub nanos: u128,
}

impl Timestamp {
    /// The whole seconds that lie between this reading and the later reading
    /// `now`; zero where `now` is not later.
    pub open spec fn spec_elapsed_secs(self, now: Timestamp) -> nat {
        if now.nanos >= self.nanos {
            ((now.nanos - self.nanos) / (NANOS_PER_SEC as int)) as nat
        } else {
            0
        }
    }

    /// The reading `nanos` nanoseconds after the clock's origin.
    pub fn from_nanos(nanos: u128) -> (t: Timestamp)
        ensures
            t.nanos == nanos,
    {
        Timestamp { nanos }
    }

    /// The reading `secs` whole seconds after the clock's origin.
    pub fn from_secs(secs: u64) -> (t: Timestamp)
        ensures
            t.nanos == secs * NANOS_PER_SEC,
    {
        let wide: u128 = secs as u128;
        Timestamp { nanos: wide * NANOS_PER_SEC }
    }

    /// The whole seconds elapsed at `now` since this reading was taken.
    pub fn elapsed_secs(&self, now: Timestamp) -> (secs: u128)
        ensures
            secs == self.spec_elapsed_secs(now),
    {
        if now.nanos >= self.nanos {
            (now.nanos - self.nanos) / NANOS_PER_SEC
        } else {
            0
        }
    }
}

} // verus!
