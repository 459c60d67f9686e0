//! Spans of time, counted in whole nanoseconds.

use vstd::prelude::*;

verus! {

pub const NANOS_PER_MILLI: u128 = 1_000_000;

pub const NANOS_PER_SEC: u128 = 1_000_000_000;

/// A non-negative span of time with nanosecond resolution.
///
/// The span is held as one count of nanoseconds, so two spans are equal
/// exactly when their counts are.
#[derive(Clone, Copy, Debug, PartialEq, Eq, Structural)]
pub struct Duration {
    nanos: u128,
}

impl View for Duration {
    type V = nat;

    closed spec fn view(&self) -> nat {
        self.nanos as nat
    }
}

impl Duration {
    /// Every span lies below this many nanoseconds: its whole seconds fit in 64 bits.
    pub open spec fn bound() -> nat {
        0x1_0000_0000_0000_0000 * 1_000_000_000
    }

    #[verifier::type_invariant]
    closed spec fn in_range(self) -> bool {
        (self.nanos as nat) < Self::bound()
    }

    /// The span of `secs` seconds and `nanos` further nanoseconds. Nanoseconds
    /// beyond a full second carry over; the carry must leave the seconds in range.
    pub fn new(secs: u64, nanos: u32) -> (d: Duration)
        requires
            secs as nat * 1_000_000_000 + (nanos as nat) < Self::bound(),
        ensures
            d@ == secs as nat * 1_000_000_000 + nanos as nat,
    {
        Duration { nanos: (secs as u128) * NANOS_PER_SEC + (nanos as u128) }
    }

    pub fn from_secs(secs: u64) -> (d: Duration)
        ensures
            d@ == secs as nat * 1_000_000_000,
    {
        Duration { nanos: (secs as u128) * NANOS_PER_SEC }
    }

    pub fn from_millis(millis: u64) -> (d: Duration)
        ensures
            d@ == millis as nat * 1_000_000,
    {
        Duration { nanos: (millis as u128) * NANOS_PER_MILLI }
    }

    /// The span of `nanos` nanoseconds.
    pub closed spec fn spec_from_nanos(nanos: u64) -> Duration {
        Duration { nanos: nanos as u128 }
    }

    pub fn from_nanos(nanos: u64) -> (d: Duration)
        ensures
            d@ == nanos as nat,
            d == Self::spec_from_nanos(nanos),
    {
        Duration { nanos: nanos as u128 }
    }

    /// The whole span in nanoseconds.
    pub fn as_nanos(&self) -> (n: u128)
        ensures
            n as nat == self@,
            (n as nat) < Self::bound(),
    {
        proof {
            use_type_invariant(self);
        }
        self.nanos
    }

    /// The whole seconds of the span.
    pub fn as_secs(&self) -> (s: u64)
        ensures
            s as nat == self@ / 1_000_000_000,
    {
        proof {
            use_type_invariant(self);
        }
        let secs: u128 = self.nanos / NANOS_PER_SEC;
        assert(secs <= u64::MAX) by (nonlinear_arith)
            requires
                secs == self.nanos / 1_000_000_000,
                self.nanos < 0x1_0000_0000_0000_0000 * 1_000_000_000,
        ;
        secs as u64
    }

    /// What is left of the span after its whole seconds, in nanoseconds.
    pub fn subsec_nanos(&self) -> (n: u32)
        ensures
            n as nat == self@ % 1_000_000_000,
    {
        (self.nanos % NANOS_PER_SEC) as u32
    }

    /// Whether this span is strictly shorter than `other`.
    pub fn shorter_than(&self, other: &Duration) -> (r: bool)
        ensures
            r == (self@ < other@),
    {
        self.nanos < other.nanos
    }
}

} // verus!
