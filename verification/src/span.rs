//! Lengths of time, exact to the nanosecond.

use vstd::prelude::*;

verus! {

/// Nanoseconds in one second.
pub const NANOS_PER_SEC: u32 = 1_000_000_000;

/// Nanoseconds in one millisecond.
pub const NANOS_PER_MILLI: u32 = 1_000_000;

/// Milliseconds in one second.
pub const MILLIS_PER_SEC: u64 = 1_000;

/// A non-negative length of time: whole seconds and the nanoseconds beyond
/// them, always fewer than one second's worth.
#[derive(Clone, Copy, Debug, PartialEq, Eq, Structural)]
pub struct Span {
    secs: u64,
    nanos: u32,
}

impl View for Span {
    type V = nat;

    /// The length in nanoseconds.
    closed spec fn view(&self) -> nat {
        (self.secs as nat) * 1_000_000_000 + (self.nanos as nat)
    }
}

impl Span {
    #[verifier::type_invariant]
    closed spec fn wf(self) -> bool {
        self.nanos < NANOS_PER_SEC
    }

    /// The empty length.
    pub fn zero() -> (s: Span)
        ensures
            s@ == 0,
    {
        Span { secs: 0, nanos: 0 }
    }

    /// The length of `secs` seconds and `nanos` nanoseconds, where `nanos`
    /// is less than one second; `None` where it is not.
    pub fn new(secs: u64, nanos: u32) -> (s: Option<Span>)
        ensures
            nanos < NANOS_PER_SEC ==> s is Some && s.unwrap()@ == secs * 1_000_000_000 + nanos,
            nanos >= NANOS_PER_SEC ==> s is None,
    {
        if nanos < NANOS_PER_SEC {
            Some(Span { secs, nanos })
        } else {
            None
        }
    }

    /// The length of `secs` whole seconds.
    pub fn from_secs(secs: u64) -> (s: Span)
        ensures
            s@ == secs * 1_000_000_000,
    {
        Span { secs, nanos: 0 }
    }

    /// The length of `millis` milliseconds.
    pub fn from_millis(millis: u64) -> (s: Span)
        ensures
            s@ == millis * 1_000_000,
    {
        let secs: u64 = millis / MILLIS_PER_SEC;
        let rest: u64 = millis % MILLIS_PER_SEC;
        let nanos: u32 = (rest as u32) * NANOS_PER_MILLI;
        Span { secs, nanos }
    }

    /// The whole seconds of the length.
    pub fn as_secs(&self) -> (secs: u64)
        ensures
            secs == self@ / 1_000_000_000,
    {
        proof {
            use_type_invariant(self);
        }
        self.secs
    }

    /// The nanoseconds beyond the whole seconds; fewer than one second's worth.
    pub fn subsec_nanos(&self) -> (nanos: u32)
        ensures
            nanos == self@ % 1_000_000_000,
            nanos < NANOS_PER_SEC,
    {
        proof {
            use_type_invariant(self);
        }
        self.nanos
    }

    /// The whole length in nanoseconds.
    pub fn as_nanos(&self) -> (n: u128)
        ensures
            n == self@,
    {
        proof {
            use_type_invariant(self);
        }
        (self.secs as u128) * 1_000_000_000u128 + (self.nanos as u128)
    }

    /// Whether this length is at least `other`.
    pub fn at_least(&self, other: &Span) -> (b: bool)
        ensures
            b == (self@ >= other@),
    {
        proof {
            use_type_invariant(self);
            use_type_invariant(other);
        }
        self.secs > other.secs || (self.secs == other.secs && self.nanos >= other.nanos)
    }

    /// This length less `other`, or the empty length where `other` is the
    /// longer: the difference never goes below zero.
    pub fn saturating_sub(&self, other: &Span) -> (d: Span)
        ensures
            self@ >= other@ ==> d@ == self@ - other@,
            self@ < other@ ==> d@ == 0,
    {
        proof {
            use_type_invariant(self);
            use_type_invariant(other);
        }
        if !self.at_least(other) {
            Span { secs: 0, nanos: 0 }
        } else if self.nanos >= other.nanos {
            Span { secs: self.secs - other.secs, nanos: self.nanos - other.nanos }
        } else {
            Span {
                secs: self.secs - other.secs - 1,
                nanos: self.nanos + NANOS_PER_SEC - other.nanos,
            }
        }
    }
}

} // verus!
