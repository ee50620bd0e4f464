//! Spans of time with nanosecond resolution.

use vstd::prelude::*;

verus! {

/// The number of nanoseconds in one second.
pub const NANOS_PER_SECOND: u128 = 1_000_000_000;

/// The number of nanoseconds in one millisecond.
pub const NANOS_PER_MILLISECOND: u128 = 1_000_000;

/// The longest span that a `Duration` can hold: `u64::MAX` seconds and
/// 999 999 999 nanoseconds.
pub const MAX_NANOS: u128 = 18_446_744_073_709_551_615_999_999_999;

/// A span of time. Its view is its length in nanoseconds.
#[derive(Clone, Copy, Debug, PartialEq, Eq, Structural)]
pub struct Duration {
    nanos: u128,
}

impl View for Duration {
    type V = nat;

    closed spec fn view(&self) -> nat {
        self.nanos as nat
    }
}

impl Duration {
    #[verifier::type_invariant]
    spec fn fits(self) -> bool {
        self.nanos <= MAX_NANOS
    }

    /// The empty span.
    pub fn zero() -> (r: Duration)
        ensures
            r@ == 0,
    {
        Duration { nanos: 0 }
    }

    /// The longest span.
    pub fn max() -> (r: Duration)
        ensures
            r@ == MAX_NANOS,
    {
        Duration { nanos: MAX_NANOS }
    }

    /// A span of whole seconds.
    pub fn from_secs(seconds: u64) -> (r: Duration)
        ensures
            r@ == seconds * NANOS_PER_SECOND,
    {
        Duration { nanos: seconds as u128 * NANOS_PER_SECOND }
    }

    /// A span of whole milliseconds.
    pub fn from_millis(milliseconds: u64) -> (r: Duration)
        ensures
            r@ == milliseconds * NANOS_PER_MILLISECOND,
    {
        Duration { nanos: milliseconds as u128 * NANOS_PER_MILLISECOND }
    }

    /// A span of whole nanoseconds.
    pub fn from_nanos(nanoseconds: u64) -> (r: Duration)
        ensures
            r@ == nanoseconds,
    {
        Duration { nanos: nanoseconds as u128 }
    }

    /// The span of `seconds` whole seconds and `nanoseconds` more, or `None`
    /// where it does not fit.
    pub fn new(seconds: u64, nanoseconds: u32) -> (r: Option<Duration>)
        ensures
            r is Some <==> seconds * NANOS_PER_SECOND + nanoseconds <= MAX_NANOS,
            r is Some ==> r->0@ == seconds * NANOS_PER_SECOND + nanoseconds,
    {
        let total: u128 = seconds as u128 * NANOS_PER_SECOND + nanoseconds as u128;
        if total <= MAX_NANOS {
            Some(Duration { nanos: total })
        } else {
            None
        }
    }

    /// The length in nanoseconds.
    pub fn as_nanos(&self) -> (r: u128)
        ensures
            r == self@,
            r <= MAX_NANOS,
    {
        proof {
            use_type_invariant(self);
        }
        self.nanos
    }

    /// The whole milliseconds of the span.
    pub fn as_millis(&self) -> (r: u128)
        ensures
            r == self@ / NANOS_PER_MILLISECOND as nat,
    {
        self.nanos / NANOS_PER_MILLISECOND
    }

    /// The whole seconds of the span.
    pub fn as_secs(&self) -> (r: u64)
        ensures
            r == self@ / NANOS_PER_SECOND as nat,
    {
        proof {
            use_type_invariant(self);
        }
        (self.nanos / NANOS_PER_SECOND) as u64
    }

    /// The nanoseconds beyond the last whole second.
    pub fn subsec_nanos(&self) -> (r: u32)
        ensures
            r == self@ % NANOS_PER_SECOND as nat,
    {
        (self.nanos % NANOS_PER_SECOND) as u32
    }

    /// Whether the span is empty.
    pub fn is_zero(&self) -> (r: bool)
        ensures
            r <==> self@ == 0,
    {
        self.nanos == 0
    }

    /// The sum, or `None` where it does not fit.
    pub fn checked_add(&self, other: Duration) -> (r: Option<Duration>)
        ensures
            r is Some <==> self@ + other@ <= MAX_NANOS,
            r is Some ==> r->0@ == self@ + other@,
    {
        proof {
            use_type_invariant(self);
            use_type_invariant(&other);
        }
        let total: u128 = self.nanos + other.nanos;
        if total <= MAX_NANOS {
            Some(Duration { nanos: total })
        } else {
            None
        }
    }

    /// The sum, or the longest span where the sum does not fit.
    pub fn saturating_add(&self, other: Duration) -> (r: Duration)
        ensures
            r@ == if self@ + other@ <= MAX_NANOS {
                self@ + other@
            } else {
                MAX_NANOS as nat
            },
    {
        match self.checked_add(other) {
            Some(total) => total,
            None => Duration::max(),
        }
    }

    /// What is left of this span after `other`, or `None` where `other` is
    /// longer.
    pub fn checked_sub(&self, other: Duration) -> (r: Option<Duration>)
        ensures
            r is Some <==> other@ <= self@,
            r is Some ==> r->0@ == self@ - other@,
    {
        proof {
            use_type_invariant(self);
        }
        if other.nanos <= self.nanos {
            Some(Duration { nanos: self.nanos - other.nanos })
        } else {
            None
        }
    }

    /// What is left of this span after `other`, or nothing where `other` is
    /// longer.
    pub fn saturating_sub(&self, other: Duration) -> (r: Duration)
        ensures
            r@ == if other@ <= self@ {
                (self@ - other@) as nat
            } else {
                0
            },
    {
        match self.checked_sub(other) {
            Some(rest) => rest,
            None => Duration::zero(),
        }
    }

    /// The shorter of two spans.
    pub fn shorter(&self, other: Duration) -> (r: Duration)
        ensures
            r@ == if self@ <= other@ {
                self@
            } else {
                other@
            },
    {
        if self.nanos <= other.nanos {
            *self
        } else {
            other
        }
    }
}

/// Two spans are equal exactly when they are equally long.
pub broadcast proof fn duration_is_its_length(a: Duration, b: Duration)
    ensures
        #![trigger a@, b@]
        a@ == b@ <==> a == b,
{
}

/// A second is a thousand milliseconds and a thousand million nanoseconds, and
/// the longest span lacks one nanosecond of a second more than `u64` holds.
pub proof fn spans_are_in_nanoseconds()
    ensures
        NANOS_PER_SECOND == 1_000 * NANOS_PER_MILLISECOND,
        NANOS_PER_MILLISECOND == 1_000 * 1_000,
        MAX_NANOS == (u64::MAX + 1) * 1_000_000_000 - 1,
{
}

} // verus!
