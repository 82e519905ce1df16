//! Bounded deterministic exponential reconnection policy.
//!
//! Attempt numbers are one-based: attempt one uses the initial delay, each later
//! admitted attempt doubles it, and the configured maximum is inclusive. Attempt
//! zero and numbers above the retry budget are rejected as `None`.
//!
//! This module computes policy only. It does not sleep, add random jitter, connect
//! sockets, classify failures, own cancellation, or spawn retry tasks.

use crate::time::{min_span, Span, MAX_SPAN_NANOS};
use vstd::arithmetic::power2::{
    lemma2_to64, lemma_pow2_pos, lemma_pow2_strictly_increases, lemma_pow2_unfold, pow2,
};
use vstd::prelude::*;

verus! {

/// Validated bounded exponential reconnection policy.
#[derive(Debug, Clone, Copy, PartialEq, Eq, Structural)]
pub struct ReconnectPolicy {
    max_attempts: u32,
    initial_delay: Span,
    maximum_delay: Span,
}

/// Stable reconnection policy validation failures.
#[derive(Debug, Clone, Copy, PartialEq, Eq, Structural)]
pub enum ReconnectConfigError {
    ZeroAttempts,
    ZeroInitialDelay,
    ZeroMaximumDelay,
    InitialExceedsMaximum { initial: Span, maximum: Span },
}

/// The delay for one admitted attempt: the initial delay doubled once per
/// earlier attempt, `initial * 2^(attempt - 1)`, capped at the configured maximum.
pub open spec fn backoff_delay(initial: nat, maximum: nat, attempt: nat) -> nat {
    min_span(initial * pow2((attempt - 1) as nat), maximum)
}

/// `initial * 2^k`, saturating at the largest span.
pub open spec fn doubled(initial: nat, k: nat) -> nat {
    min_span(initial * pow2(k), MAX_SPAN_NANOS as nat)
}

impl ReconnectPolicy {
    #[verifier::type_invariant]
    closed spec fn policy_valid(self) -> bool {
        &&& self.max_attempts > 0
        &&& 0 < self.initial_delay@ <= self.maximum_delay@
        &&& self.maximum_delay@ <= MAX_SPAN_NANOS
    }

    /// The inclusive number of attempts admitted.
    pub closed spec fn spec_max_attempts(self) -> nat {
        self.max_attempts as nat
    }

    /// The delay of the first attempt.
    pub closed spec fn spec_initial_delay(self) -> Span {
        self.initial_delay
    }

    /// The inclusive cap on every delay.
    pub closed spec fn spec_maximum_delay(self) -> Span {
        self.maximum_delay
    }

    /// Creates a finite non-spinning capped reconnection policy.
    ///
    /// Zero attempts, zero initial delay, and zero maximum delay are reported in
    /// that order before an initial delay above the maximum.
    pub fn new(max_attempts: u32, initial_delay: Span, maximum_delay: Span) -> (policy: Result<
        Self,
        ReconnectConfigError,
    >)
        ensures
            max_attempts == 0 ==> policy == Err::<Self, ReconnectConfigError>(
                ReconnectConfigError::ZeroAttempts,
            ),
            max_attempts != 0 && initial_delay@ == 0 ==> policy == Err::<
                Self,
                ReconnectConfigError,
            >(ReconnectConfigError::ZeroInitialDelay),
            max_attempts != 0 && initial_delay@ != 0 && maximum_delay@ == 0 ==> policy == Err::<
                Self,
                ReconnectConfigError,
            >(ReconnectConfigError::ZeroMaximumDelay),
            max_attempts != 0 && initial_delay@ != 0 && maximum_delay@ != 0 && initial_delay@
                > maximum_delay@ ==> policy == Err::<Self, ReconnectConfigError>(
                ReconnectConfigError::InitialExceedsMaximum {
                    initial: initial_delay,
                    maximum: maximum_delay,
                },
            ),
            max_attempts != 0 && 0 < initial_delay@ <= maximum_delay@ ==> (policy matches Ok(p)
                && p.spec_max_attempts() == max_attempts && p.spec_initial_delay() == initial_delay
                && p.spec_maximum_delay() == maximum_delay),
    {
        if max_attempts == 0 {
            return Err(ReconnectConfigError::ZeroAttempts);
        }
        if initial_delay.is_zero() {
            return Err(ReconnectConfigError::ZeroInitialDelay);
        }
        if maximum_delay.is_zero() {
            return Err(ReconnectConfigError::ZeroMaximumDelay);
        }
        if !initial_delay.le(maximum_delay) {
            return Err(
                ReconnectConfigError::InitialExceedsMaximum {
                    initial: initial_delay,
                    maximum: maximum_delay,
                },
            );
        }
        Ok(ReconnectPolicy { max_attempts, initial_delay, maximum_delay })
    }

    /// Returns the inclusive number of reconnect attempts admitted.
    pub fn max_attempts(&self) -> (attempts: u32)
        ensures
            attempts == self.spec_max_attempts(),
            attempts > 0,
    {
        proof {
            use_type_invariant(self);
        }
        self.max_attempts
    }

    /// Computes one admitted attempt's deterministic capped delay.
    ///
    /// Attempts `1..=max_attempts` get `initial * 2^(attempt - 1)` capped at the
    /// maximum delay; attempt zero and attempts above the budget get `None`.
    /// Doubling stops as soon as the cap is reached, so the work is bounded by
    /// the number of doublings a span can hold, whatever the attempt number.
    pub fn delay_for(&self, attempt: u32) -> (delay: Option<Span>)
        ensures
            attempt == 0 || attempt > self.spec_max_attempts() ==> delay is None,
            1 <= attempt <= self.spec_max_attempts() ==> (delay matches Some(d) && d@
                == backoff_delay(
                self.spec_initial_delay()@,
                self.spec_maximum_delay()@,
                attempt as nat,
            )),
    {
        proof {
            use_type_invariant(self);
        }
        if attempt == 0 || attempt > self.max_attempts {
            return None;
        }
        let exponent = attempt - 1;
        let initial = self.initial_delay;
        let maximum = self.maximum_delay;
        let ghost i = initial@;
        let mut delay = initial;
        let mut k: u32 = 0;
        proof {
            lemma2_to64();
            assert(i * pow2(0) == i);
        }
        while k < exponent && !maximum.le(delay)
            invariant
                k <= exponent,
                0 < i,
                i == initial@,
                delay@ == doubled(i, k as nat),
            decreases exponent - k,
        {
            let ghost before = delay@;
            delay = delay.saturating_mul(2);
            proof {
                lemma_pow2_unfold((k + 1) as nat);
                let p = pow2(k as nat);
                assert(i * pow2((k + 1) as nat) == 2 * (i * p)) by (nonlinear_arith)
                    requires
                        pow2((k + 1) as nat) == 2 * p,
                ;
            }
            k = k + 1;
        }
        proof {
            let e = exponent as nat;
            let p = pow2(k as nat);
            let q = pow2(e);
            if k < exponent {
                lemma_pow2_strictly_increases(k as nat, e);
                assert(i * p <= i * q) by (nonlinear_arith)
                    requires
                        p < q,
                        i > 0,
                ;
            }
        }
        Some(delay.min(maximum))
    }
}

/// The first admitted attempt waits exactly the initial delay.
pub proof fn lemma_first_attempt_uses_initial_delay(initial: nat, maximum: nat)
    requires
        0 < initial <= maximum,
        maximum <= crate::time::MAX_SPAN_NANOS,
    ensures
        backoff_delay(initial, maximum, 1) == initial,
{
    lemma2_to64();
    assert(pow2(0) == 1);
    assert(initial * 1 == initial);
}

/// Every delay lies between the initial delay and the inclusive maximum.
pub proof fn lemma_delay_within_bounds(initial: nat, maximum: nat, attempt: nat)
    requires
        0 < initial <= maximum,
        maximum <= crate::time::MAX_SPAN_NANOS,
        attempt >= 1,
    ensures
        initial <= backoff_delay(initial, maximum, attempt) <= maximum,
{
    let f = pow2((attempt - 1) as nat);
    assert(f >= 1) by {
        lemma_pow2_pos((attempt - 1) as nat);
    }
    assert(initial * f >= initial) by (nonlinear_arith)
        requires
            f >= 1,
            initial > 0,
    ;
}

/// Delays never shrink as the attempt number grows.
pub proof fn lemma_delay_nondecreasing(initial: nat, maximum: nat, earlier: nat, later: nat)
    requires
        0 < initial <= maximum,
        1 <= earlier <= later,
    ensures
        backoff_delay(initial, maximum, earlier) <= backoff_delay(initial, maximum, later),
{
    let fe = pow2((earlier - 1) as nat);
    let fl = pow2((later - 1) as nat);
    assert(fe <= fl) by {
        if earlier < later {
            lemma_pow2_strictly_increases((earlier - 1) as nat, (later - 1) as nat);
        }
    }
    assert(initial * fe <= initial * fl) by (nonlinear_arith)
        requires
            fe <= fl,
            initial > 0,
    ;
}

} // verus!
