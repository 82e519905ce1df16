//! Monotonic time model used by every timing and deadline policy.
//!
//! [`Span`] is a non-negative length of time with nanosecond resolution and the
//! same range as a standard duration: at most `u64::MAX` whole seconds plus
//! 999,999,999 nanoseconds. [`Moment`] is a point on one monotonic clock, counted
//! in nanoseconds from an origin the embedding application chooses.
//!
//! Neither type reads a clock; callers supply every instant explicitly.

use vstd::prelude::*;

verus! {

/// Nanoseconds in one second.
pub const NANOS_PER_SEC: u128 = 1_000_000_000;

/// Largest representable span: `u64::MAX` seconds plus 999,999,999 nanoseconds.
pub const MAX_SPAN_NANOS: u128 = 18_446_744_073_709_551_615_999_999_999;

/// Nanoseconds in one millisecond.
pub const NANOS_PER_MILLI: u128 = 1_000_000;

/// A non-negative length of time with nanosecond resolution.
#[derive(Clone, Copy, Debug, PartialEq, Eq, Structural)]
pub struct Span {
    nanos: u128,
}

impl View for Span {
    type V = nat;

    closed spec fn view(&self) -> nat {
        self.nanos as nat
    }
}

/// The span that multiplying `span` by `factor` gives, saturating at the largest span.
pub open spec fn saturating_scaled(span: nat, factor: nat) -> nat {
    if span * factor <= MAX_SPAN_NANOS {
        span * factor
    } else {
        MAX_SPAN_NANOS as nat
    }
}

/// The smaller of two spans.
pub open spec fn min_span(a: nat, b: nat) -> nat {
    if a <= b {
        a
    } else {
        b
    }
}

impl Span {
    #[verifier::type_invariant]
    closed spec fn within_range(self) -> bool {
        self.nanos <= MAX_SPAN_NANOS
    }

    /// The empty span.
    pub fn zero() -> (span: Span)
        ensures
            span@ == 0,
    {
        Span { nanos: 0 }
    }

    /// The largest representable span.
    pub fn max_value() -> (span: Span)
        ensures
            span@ == MAX_SPAN_NANOS,
    {
        Span { nanos: MAX_SPAN_NANOS }
    }

    /// A span of whole seconds.
    pub fn from_secs(secs: u64) -> (span: Span)
        ensures
            span@ == secs * NANOS_PER_SEC,
    {
        assert(secs * NANOS_PER_SEC <= MAX_SPAN_NANOS) by (nonlinear_arith)
            requires
                secs <= u64::MAX,
        ;
        Span { nanos: (secs as u128) * NANOS_PER_SEC }
    }

    /// A span of whole milliseconds.
    pub fn from_millis(millis: u64) -> (span: Span)
        ensures
            span@ == millis * NANOS_PER_MILLI,
    {
        assert(millis * NANOS_PER_MILLI <= MAX_SPAN_NANOS) by (nonlinear_arith)
            requires
                millis <= u64::MAX,
        ;
        Span { nanos: (millis as u128) * NANOS_PER_MILLI }
    }

    /// A span of whole nanoseconds.
    pub fn from_nanos(nanos: u64) -> (span: Span)
        ensures
            span@ == nanos,
    {
        Span { nanos: nanos as u128 }
    }

    /// The span's exact length in nanoseconds.
    pub fn as_nanos(self) -> (nanos: u128)
        ensures
            nanos == self@,
            nanos <= MAX_SPAN_NANOS,
    {
        proof {
            use_type_invariant(&self);
        }
        self.nanos
    }

    /// Reports whether the span is empty.
    pub fn is_zero(self) -> (zero: bool)
        ensures
            zero == (self@ == 0),
    {
        self.nanos == 0
    }

    /// Reports whether `self` is no longer than `other`.
    pub fn le(self, other: Span) -> (no_longer: bool)
        ensures
            no_longer == (self@ <= other@),
            self@ <= MAX_SPAN_NANOS,
            other@ <= MAX_SPAN_NANOS,
    {
        proof {
            use_type_invariant(&self);
            use_type_invariant(&other);
        }
        self.nanos <= other.nanos
    }

    /// The shorter of two spans.
    pub fn min(self, other: Span) -> (shorter: Span)
        ensures
            shorter@ == min_span(self@, other@),
    {
        if self.nanos <= other.nanos {
            self
        } else {
            other
        }
    }

    /// Multiplies the span by `factor`, saturating at the largest representable span.
    pub fn saturating_mul(self, factor: u32) -> (scaled: Span)
        ensures
            scaled@ == saturating_scaled(self@, factor as nat),
    {
        proof {
            use_type_invariant(&self);
        }
        match self.nanos.checked_mul(factor as u128) {
            Some(product) if product <= MAX_SPAN_NANOS => Span { nanos: product },
            _ => Span { nanos: MAX_SPAN_NANOS },
        }
    }
}

/// A point on one monotonic clock, in nanoseconds from the clock's origin.
#[derive(Clone, Copy, Debug, PartialEq, Eq, Structural)]
pub struct Moment {
    nanos: u64,
}

impl View for Moment {
    type V = nat;

    closed spec fn view(&self) -> nat {
        self.nanos as nat
    }
}

/// Elapsed time from `earlier` to `later`, or zero when `later` precedes `earlier`.
pub open spec fn saturating_elapsed(later: nat, earlier: nat) -> nat {
    if later >= earlier {
        (later - earlier) as nat
    } else {
        0
    }
}

impl Moment {
    /// The instant `nanos` nanoseconds after the clock's origin.
    pub fn from_nanos(nanos: u64) -> (moment: Moment)
        ensures
            moment@ == nanos,
    {
        Moment { nanos }
    }

    /// Nanoseconds from the clock's origin to this instant.
    pub fn as_nanos(self) -> (nanos: u64)
        ensures
            nanos == self@,
    {
        self.nanos
    }

    /// The instant `span` later, or `None` when it is beyond the clock's range.
    pub fn checked_add(self, span: Span) -> (later: Option<Moment>)
        ensures
            later matches Some(m) ==> m@ == self@ + span@,
            later is None <==> self@ + span@ > u64::MAX,
    {
        let nanos = span.as_nanos();
        if nanos <= (u64::MAX - self.nanos) as u128 {
            Some(Moment { nanos: self.nanos + nanos as u64 })
        } else {
            None
        }
    }

    /// The instant `span` earlier, or `None` when it precedes the clock's origin.
    pub fn checked_sub(self, span: Span) -> (earlier: Option<Moment>)
        ensures
            earlier matches Some(m) ==> m@ == self@ - span@,
            earlier is None <==> span@ > self@,
    {
        let nanos = span.as_nanos();
        if nanos <= self.nanos as u128 {
            Some(Moment { nanos: self.nanos - nanos as u64 })
        } else {
            None
        }
    }

    /// Reports whether `self` is at or before `other`.
    pub fn le(self, other: Moment) -> (at_or_before: bool)
        ensures
            at_or_before == (self@ <= other@),
    {
        self.nanos <= other.nanos
    }

    /// The later of two instants.
    pub fn max(self, other: Moment) -> (later: Moment)
        ensures
            later@ == if self@ >= other@ { self@ } else { other@ },
    {
        if self.nanos >= other.nanos {
            self
        } else {
            other
        }
    }

    /// Time elapsed since `earlier`, or zero when `earlier` is later than `self`.
    pub fn saturating_duration_since(self, earlier: Moment) -> (elapsed: Span)
        ensures
            elapsed@ == saturating_elapsed(self@, earlier@),
    {
        if self.nanos >= earlier.nanos {
            Span { nanos: (self.nanos - earlier.nanos) as u128 }
        } else {
            Span { nanos: 0 }
        }
    }
}

} // verus!
