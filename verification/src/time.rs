//! A span of time with nanosecond resolution, measured as a whole number of
//! nanoseconds (the model of `std::time::Duration` that the SDK relies on).

use vstd::prelude::*;

verus! {

pub const NANOS_PER_SEC: u64 = 1_000_000_000;

pub const NANOS_PER_MILLI: u64 = 1_000_000;

/// A non-negative span of time: whole seconds plus a sub-second part in
/// nanoseconds. Two spans are equal exactly when they hold the same number
/// of nanoseconds.
#[derive(Clone, Copy, Debug, PartialEq, Eq, Structural)]
pub struct Duration {
    secs: u64,
    nanos: u32,
}

impl View for Duration {
    type V = nat;

    /// The span in nanoseconds.
    open spec fn view(&self) -> nat {
        (self.spec_secs() * NANOS_PER_SEC + self.spec_nanos()) as nat
    }
}

impl Duration {
    pub closed spec fn spec_secs(self) -> nat {
        self.secs as nat
    }

    pub closed spec fn spec_nanos(self) -> nat {
        self.nanos as nat
    }

    #[verifier::type_invariant]
    closed spec fn well_formed(self) -> bool {
        self.nanos < NANOS_PER_SEC
    }

    /// A span of `secs` whole seconds.
    pub fn from_secs(secs: u64) -> (d: Duration)
        ensures
            d@ == secs * NANOS_PER_SEC,
            d.spec_secs() == secs,
            d.spec_nanos() == 0,
    {
        Duration { secs, nanos: 0 }
    }

    /// A span of `secs` seconds and `nanos` nanoseconds.
    pub fn from_parts(secs: u64, nanos: u32) -> (d: Duration)
        requires
            nanos < NANOS_PER_SEC,
        ensures
            d@ == secs * NANOS_PER_SEC + nanos,
    {
        Duration { secs, nanos }
    }

    /// A span of `millis` milliseconds.
    pub fn from_millis(millis: u64) -> (d: Duration)
        ensures
            d@ == millis * NANOS_PER_MILLI,
    {
        let secs = millis / 1000;
        let rest = millis % 1000;
        let d = Duration { secs, nanos: (rest * NANOS_PER_MILLI) as u32 };
        assert(d@ == millis * NANOS_PER_MILLI);
        d
    }

    /// The empty span.
    pub fn zero() -> (d: Duration)
        ensures
            d@ == 0,
    {
        Duration { secs: 0, nanos: 0 }
    }

    /// Whole seconds in the span.
    pub fn as_secs(&self) -> (r: u64)
        ensures
            r == self@ / (NANOS_PER_SEC as nat),
    {
        proof {
            use_type_invariant(self);
        }
        self.secs
    }

    /// Nanoseconds beyond the whole seconds.
    pub fn subsec_nanos(&self) -> (r: u32)
        ensures
            r == self@ % (NANOS_PER_SEC as nat),
    {
        proof {
            use_type_invariant(self);
        }
        self.nanos
    }

    /// Whole milliseconds in the span.
    pub fn as_millis(&self) -> (r: u128)
        ensures
            r == self@ / (NANOS_PER_MILLI as nat),
    {
        proof {
            use_type_invariant(self);
        }
        let r = (self.secs as u128) * 1000 + (self.nanos / 1_000_000) as u128;
        assert(r == self@ / (NANOS_PER_MILLI as nat)) by (nonlinear_arith)
            requires
                r == (self.secs as u128) * 1000 + (self.nanos / 1_000_000) as u128,
                self@ == self.secs * 1_000_000_000 + self.nanos,
                self.nanos < 1_000_000_000,
        ;
        r
    }

    /// Whether this span is strictly shorter than `other`.
    pub fn is_shorter_than(&self, other: &Duration) -> (r: bool)
        ensures
            r == (self@ < other@),
    {
        proof {
            use_type_invariant(self);
            use_type_invariant(other);
        }
        self.secs < other.secs || (self.secs == other.secs && self.nanos < other.nanos)
    }

    /// `self + other`, or `None` when the sum has more whole seconds than a
    /// `u64` holds.
    pub fn checked_add(&self, other: Duration) -> (r: Option<Duration>)
        ensures
            r matches Some(d) ==> d@ == self@ + other@,
            r is None ==> self@ + other@ >= (u64::MAX as nat + 1) * NANOS_PER_SEC,
    {
        proof {
            use_type_invariant(self);
            use_type_invariant(&other);
        }
        let n: u64 = self.nanos as u64 + other.nanos as u64;
        let secs = match self.secs.checked_add(other.secs) {
            Some(s) => s,
            None => return None,
        };
        if n >= NANOS_PER_SEC {
            match secs.checked_add(1) {
                Some(s) => Some(Duration { secs: s, nanos: (n - NANOS_PER_SEC) as u32 }),
                None => None,
            }
        } else {
            Some(Duration { secs, nanos: n as u32 })
        }
    }

    /// `self - other`, or the empty span when `other` is longer.
    pub fn saturating_sub(&self, other: Duration) -> (d: Duration)
        ensures
            d@ == (if self@ >= other@ { self@ - other@ } else { 0 }),
    {
        proof {
            use_type_invariant(self);
            use_type_invariant(&other);
        }
        if self.secs > other.secs || (self.secs == other.secs && self.nanos >= other.nanos) {
            if self.nanos >= other.nanos {
                Duration { secs: self.secs - other.secs, nanos: self.nanos - other.nanos }
            } else {
                Duration {
                    secs: self.secs - other.secs - 1,
                    nanos: (self.nanos as u64 + NANOS_PER_SEC - other.nanos as u64) as u32,
                }
            }
        } else {
            Duration { secs: 0, nanos: 0 }
        }
    }
}

} // verus!
