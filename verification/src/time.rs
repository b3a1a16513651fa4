//! A span of time, used by the clock capabilities' duration arithmetic.

use vstd::prelude::*;

verus! {

/// A span of time: whole seconds plus a sub-second nanosecond part.
///
/// The clock types a backend supplies ([`crate::traits::Instant`],
/// [`crate::traits::SystemTime`]) express their arithmetic in terms of
/// this type.
#[derive(Clone, Copy, Debug, PartialEq, Eq, Hash, Structural)]
pub struct Duration {
    secs: u64,
    nanos: u32,
}

/// Nanoseconds per second.
pub const NANOS_PER_SEC: u32 = 1_000_000_000;

impl Duration {
    /// The whole-second part, as a spec value.
    pub closed spec fn spec_secs(&self) -> u64 {
        self.secs
    }

    /// The sub-second nanosecond part, as a spec value.
    pub closed spec fn spec_subsec_nanos(&self) -> u32 {
        self.nanos
    }

    /// The sub-second part always stays below one second.
    pub open spec fn wf(&self) -> bool {
        self.spec_subsec_nanos() < NANOS_PER_SEC
    }

    /// The whole span in nanoseconds.
    pub open spec fn spec_nanos(&self) -> nat {
        (self.spec_secs() as nat) * (NANOS_PER_SEC as nat) + (self.spec_subsec_nanos() as nat)
    }

    /// Creates a duration from whole seconds and a nanosecond part; the
    /// nanosecond part may run over a second and is carried into the
    /// seconds.
    pub fn new(secs: u64, nanos: u32) -> (r: Duration)
        requires
            (secs as nat) + (nanos as nat) / (NANOS_PER_SEC as nat) <= u64::MAX as nat,
        ensures
            r.wf(),
            r.spec_nanos() == (secs as nat) * (NANOS_PER_SEC as nat) + (nanos as nat),
    {
        let extra: u32 = nanos / NANOS_PER_SEC;
        let rest: u32 = nanos % NANOS_PER_SEC;
        Duration { secs: secs + extra as u64, nanos: rest }
    }

    /// The whole-second part.
    pub fn as_secs(&self) -> (r: u64)
        ensures
            r == self.spec_secs(),
    {
        self.secs
    }

    /// The sub-second part, in nanoseconds.
    pub fn subsec_nanos(&self) -> (r: u32)
        ensures
            r == self.spec_subsec_nanos(),
    {
        self.nanos
    }

    /// Adds two durations, reporting `None` exactly when the sum does
    /// not fit.
    pub fn checked_add(&self, other: &Duration) -> (r: Option<Duration>)
        requires
            self.wf(),
            other.wf(),
        ensures
            match r {
                Some(d) => d.wf() && d.spec_nanos() == self.spec_nanos() + other.spec_nanos(),
                None => self.spec_nanos() + other.spec_nanos() > (u64::MAX as nat) * (NANOS_PER_SEC as nat)
                    + (NANOS_PER_SEC - 1) as nat,
            },
    {
        let nanos_sum: u32 = self.nanos + other.nanos;
        let carry: u64 = if nanos_sum >= NANOS_PER_SEC {
            1
        } else {
            0
        };
        let nanos: u32 = if nanos_sum >= NANOS_PER_SEC {
            nanos_sum - NANOS_PER_SEC
        } else {
            nanos_sum
        };
        if self.secs <= u64::MAX - other.secs {
            let secs_sum: u64 = self.secs + other.secs;
            if carry == 1 && secs_sum == u64::MAX {
                None
            } else {
                Some(Duration { secs: secs_sum + carry, nanos: nanos })
            }
        } else {
            None
        }
    }

    /// Subtracts a duration, reporting `None` exactly when `other` is
    /// larger than `self`.
    pub fn checked_sub(&self, other: &Duration) -> (r: Option<Duration>)
        requires
            self.wf(),
            other.wf(),
        ensures
            match r {
                Some(d) => d.wf() && d.spec_nanos() + other.spec_nanos() == self.spec_nanos(),
                None => self.spec_nanos() < other.spec_nanos(),
            },
    {
        if self.secs >= other.secs {
            if self.nanos >= other.nanos {
                Some(Duration { secs: self.secs - other.secs, nanos: self.nanos - other.nanos })
            } else if self.secs > other.secs {
                Some(
                    Duration {
                        secs: self.secs - other.secs - 1,
                        nanos: self.nanos + NANOS_PER_SEC - other.nanos,
                    },
                )
            } else {
                None
            }
        } else {
            None
        }
    }
}

} // verus!
