//! A span of time, kept as whole seconds and the nanoseconds beyond them.

use vstd::prelude::*;

verus! {

/// Nanoseconds in one second.
pub const NANOS_PER_SEC: u32 = 1_000_000_000;

/// Nanoseconds in one millisecond.
pub const NANOS_PER_MILLI: u32 = 1_000_000;

/// Nanoseconds in one microsecond.
pub const NANOS_PER_MICRO: u32 = 1_000;

/// Microseconds in one second.
pub const MICROS_PER_SEC: u32 = 1_000_000;

/// A span of time. Its view is its length in nanoseconds.
#[derive(Clone, Copy, Debug)]
pub struct Duration {
    secs: u64,
    nanos: u32,
}

impl View for Duration {
    type V = nat;

    closed spec fn view(&self) -> nat {
        (self.secs * 1_000_000_000 + self.nanos) as nat
    }
}

impl Duration {
    #[verifier::type_invariant]
    spec fn inv(self) -> bool {
        self.nanos < 1_000_000_000
    }

    /// The span of `secs` seconds and `nanos` nanoseconds. Nanoseconds that
    /// make up whole seconds are counted as seconds. There is no such span
    /// where the seconds would no longer fit in 64 bits.
    pub fn new(secs: u64, nanos: u32) -> (duration: Option<Duration>)
        ensures
            duration.is_some() <==> secs + nanos / 1_000_000_000 <= u64::MAX,
            duration matches Some(d) ==> d@ == secs * 1_000_000_000 + nanos,
    {
        let carry: u64 = (nanos / NANOS_PER_SEC) as u64;
        if secs > u64::MAX - carry {
            None
        } else {
            Some(Duration { secs: secs + carry, nanos: nanos % NANOS_PER_SEC })
        }
    }

    /// The span of `secs` seconds.
    pub fn from_secs(secs: u64) -> (duration: Duration)
        ensures
            duration@ == secs * 1_000_000_000,
    {
        Duration { secs, nanos: 0 }
    }

    /// The span of `millis` milliseconds.
    pub fn from_millis(millis: u64) -> (duration: Duration)
        ensures
            duration@ == millis * 1_000_000,
    {
        Duration { secs: millis / 1_000, nanos: ((millis % 1_000) as u32) * NANOS_PER_MILLI }
    }

    /// The span of `micros` microseconds.
    pub fn from_micros(micros: u64) -> (duration: Duration)
        ensures
            duration@ == micros * 1_000,
    {
        Duration {
            secs: micros / 1_000_000,
            nanos: ((micros % 1_000_000) as u32) * NANOS_PER_MICRO,
        }
    }

    /// Number of whole seconds in the span.
    pub fn as_secs(&self) -> (secs: u64)
        ensures
            secs == self@ / 1_000_000_000,
    {
        proof {
            use_type_invariant(self);
        }
        self.secs
    }

    /// What is left beyond the whole seconds, in whole microseconds.
    pub fn subsec_micros(&self) -> (micros: u32)
        ensures
            micros == (self@ % 1_000_000_000) / 1_000,
            micros < 1_000_000,
    {
        proof {
            use_type_invariant(self);
        }
        self.nanos / NANOS_PER_MICRO
    }

    /// What is left beyond the whole seconds, in nanoseconds.
    pub fn subsec_nanos(&self) -> (nanos: u32)
        ensures
            nanos == self@ % 1_000_000_000,
    {
        proof {
            use_type_invariant(self);
        }
        self.nanos
    }

    /// Number of whole microseconds in the span.
    pub fn as_micros(&self) -> (micros: u128)
        ensures
            micros == self@ / 1_000,
    {
        proof {
            use_type_invariant(self);
        }
        let whole: u128 = (self.secs as u128) * 1_000_000;
        whole + ((self.nanos / NANOS_PER_MICRO) as u128)
    }
}

} // verus!
