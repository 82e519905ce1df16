//! Independent logical buffer limits and measured allocation accounting.
//!
//! Inbound retained bytes and one encoded outbound frame have separate inclusive
//! ceilings. Successful observations update monotonic peaks for both logical length
//! and allocator capacity; rejected growth never contaminates those measurements.
//!
//! This module does not allocate buffers, pool memory, encode frames, perform I/O,
//! or claim allocator capacity equals live payload bytes.

use vstd::prelude::*;

verus! {

/// Stable direction labels shared by buffer configuration, errors, and telemetry.
#[derive(Debug, Clone, Copy, PartialEq, Eq, Structural)]
pub enum BufferDirection {
    Inbound,
    Outbound,
}

/// Independent inclusive retained-byte limits for one session.
#[derive(Debug, Clone, Copy, PartialEq, Eq, Structural)]
pub struct BufferBudget {
    max_inbound_bytes: usize,
    max_outbound_bytes: usize,
}

/// Stable buffer budget validation failures.
#[derive(Debug, Clone, Copy, PartialEq, Eq, Structural)]
pub enum BufferConfigError {
    ZeroLimit { direction: BufferDirection },
}

/// Stable one-over-budget observation context.
#[derive(Debug, Clone, Copy, PartialEq, Eq, Structural)]
pub struct BufferLimitError {
    pub direction: BufferDirection,
    pub attempted: usize,
    pub limit: usize,
}

impl BufferBudget {
    #[verifier::type_invariant]
    closed spec fn limits_positive(self) -> bool {
        self.max_inbound_bytes > 0 && self.max_outbound_bytes > 0
    }

    /// The inclusive retained inbound byte ceiling.
    pub closed spec fn inbound_limit(self) -> nat {
        self.max_inbound_bytes as nat
    }

    /// The inclusive encoded outbound frame byte ceiling.
    pub closed spec fn outbound_limit(self) -> nat {
        self.max_outbound_bytes as nat
    }

    /// Creates positive independent logical byte limits.
    ///
    /// Validates inbound before outbound; the first zero direction is reported.
    pub fn new(max_inbound_bytes: usize, max_outbound_bytes: usize) -> (budget: Result<
        Self,
        BufferConfigError,
    >)
        ensures
            max_inbound_bytes == 0 ==> budget == Err::<Self, BufferConfigError>(
                BufferConfigError::ZeroLimit { direction: BufferDirection::Inbound },
            ),
            max_inbound_bytes != 0 && max_outbound_bytes == 0 ==> budget == Err::<
                Self,
                BufferConfigError,
            >(BufferConfigError::ZeroLimit { direction: BufferDirection::Outbound }),
            max_inbound_bytes != 0 && max_outbound_bytes != 0 ==> (budget matches Ok(b) && b.inbound_limit()
                == max_inbound_bytes && b.outbound_limit() == max_outbound_bytes),
    {
        if max_inbound_bytes == 0 {
            return Err(BufferConfigError::ZeroLimit { direction: BufferDirection::Inbound });
        }
        if max_outbound_bytes == 0 {
            return Err(BufferConfigError::ZeroLimit { direction: BufferDirection::Outbound });
        }
        Ok(BufferBudget { max_inbound_bytes, max_outbound_bytes })
    }

    /// Returns the inclusive retained inbound byte ceiling.
    pub fn max_inbound_bytes(&self) -> (limit: usize)
        ensures
            limit == self.inbound_limit(),
            limit > 0,
    {
        proof {
            use_type_invariant(self);
        }
        self.max_inbound_bytes
    }

    /// Returns the inclusive encoded outbound frame byte ceiling.
    pub fn max_outbound_bytes(&self) -> (limit: usize)
        ensures
            limit == self.outbound_limit(),
            limit > 0,
    {
        proof {
            use_type_invariant(self);
        }
        self.max_outbound_bytes
    }
}

/// Peak logical and allocated bytes observed during a session.
#[derive(Debug, Clone, Copy, PartialEq, Eq, Structural)]
pub struct BufferUsage {
    inbound_bytes: usize,
    inbound_capacity: usize,
    outbound_bytes: usize,
    outbound_capacity: usize,
}

/// Mathematical value of a [`BufferUsage`]: its four peaks.
pub struct BufferUsageView {
    pub inbound_bytes: nat,
    pub inbound_capacity: nat,
    pub outbound_bytes: nat,
    pub outbound_capacity: nat,
}

impl View for BufferUsage {
    type V = BufferUsageView;

    closed spec fn view(&self) -> BufferUsageView {
        BufferUsageView {
            inbound_bytes: self.inbound_bytes as nat,
            inbound_capacity: self.inbound_capacity as nat,
            outbound_bytes: self.outbound_bytes as nat,
            outbound_capacity: self.outbound_capacity as nat,
        }
    }
}

/// The usage in which no observation has been recorded.
pub open spec fn zero_usage() -> BufferUsageView {
    BufferUsageView { inbound_bytes: 0, inbound_capacity: 0, outbound_bytes: 0, outbound_capacity: 0 }
}

/// The larger of two measurements.
pub open spec fn peak(current: nat, observed: nat) -> nat {
    if observed > current {
        observed
    } else {
        current
    }
}

impl Default for BufferUsage {
    /// Creates usage with every peak at zero.
    fn default() -> (usage: Self)
        ensures
            usage@ == zero_usage(),
    {
        BufferUsage { inbound_bytes: 0, inbound_capacity: 0, outbound_bytes: 0, outbound_capacity: 0 }
    }
}

impl BufferUsage {
    /// Returns the peak successfully retained inbound logical bytes.
    pub fn peak_inbound_bytes(&self) -> (bytes: usize)
        ensures
            bytes == self@.inbound_bytes,
    {
        self.inbound_bytes
    }

    /// Returns the peak inbound buffer allocation capacity observed.
    pub fn peak_inbound_capacity(&self) -> (capacity: usize)
        ensures
            capacity == self@.inbound_capacity,
    {
        self.inbound_capacity
    }

    /// Returns the peak successfully encoded outbound logical bytes.
    pub fn peak_outbound_bytes(&self) -> (bytes: usize)
        ensures
            bytes == self@.outbound_bytes,
    {
        self.outbound_bytes
    }

    /// Returns the peak outbound buffer allocation capacity observed.
    pub fn peak_outbound_capacity(&self) -> (capacity: usize)
        ensures
            capacity == self@.outbound_capacity,
    {
        self.outbound_capacity
    }
}

/// Mutable per-session observer enforcing one [`BufferBudget`].
#[derive(Debug, Clone, Copy, PartialEq, Eq, Structural)]
pub struct BufferAccountant {
    budget: BufferBudget,
    usage: BufferUsage,
}

/// The usage after one accepted inbound observation of `bytes` and `capacity`.
pub open spec fn usage_after_inbound(
    usage: BufferUsageView,
    bytes: nat,
    capacity: nat,
) -> BufferUsageView {
    BufferUsageView {
        inbound_bytes: peak(usage.inbound_bytes, bytes),
        inbound_capacity: peak(usage.inbound_capacity, capacity),
        ..usage
    }
}

/// The usage after one accepted outbound observation of `bytes` and `capacity`.
pub open spec fn usage_after_outbound(
    usage: BufferUsageView,
    bytes: nat,
    capacity: nat,
) -> BufferUsageView {
    BufferUsageView {
        outbound_bytes: peak(usage.outbound_bytes, bytes),
        outbound_capacity: peak(usage.outbound_capacity, capacity),
        ..usage
    }
}

/// The usage after one observation in `direction`: unchanged when `bytes`
/// exceeds that direction's limit, otherwise raised to the observed values.
pub open spec fn observed_usage(
    budget: BufferBudget,
    usage: BufferUsageView,
    direction: BufferDirection,
    bytes: nat,
    capacity: nat,
) -> BufferUsageView {
    match direction {
        BufferDirection::Inbound => if bytes > budget.inbound_limit() {
            usage
        } else {
            usage_after_inbound(usage, bytes, capacity)
        },
        BufferDirection::Outbound => if bytes > budget.outbound_limit() {
            usage
        } else {
            usage_after_outbound(usage, bytes, capacity)
        },
    }
}

/// The usage after a sequence of observations (direction, bytes, capacity).
pub open spec fn usage_after_observations(
    budget: BufferBudget,
    usage: BufferUsageView,
    observations: Seq<(BufferDirection, nat, nat)>,
) -> BufferUsageView
    decreases observations.len(),
{
    if observations.len() == 0 {
        usage
    } else {
        let last = observations.last();
        observed_usage(
            budget,
            usage_after_observations(budget, usage, observations.drop_last()),
            last.0,
            last.1,
            last.2,
        )
    }
}

/// Whether every peak of `later` is at least the same peak of `earlier`.
pub open spec fn peaks_at_least(later: BufferUsageView, earlier: BufferUsageView) -> bool {
    &&& later.inbound_bytes >= earlier.inbound_bytes
    &&& later.inbound_capacity >= earlier.inbound_capacity
    &&& later.outbound_bytes >= earlier.outbound_bytes
    &&& later.outbound_capacity >= earlier.outbound_capacity
}

/// Whether the logical peaks are within a budget.
pub open spec fn within_budget(budget: BufferBudget, usage: BufferUsageView) -> bool {
    usage.inbound_bytes <= budget.inbound_limit() && usage.outbound_bytes
        <= budget.outbound_limit()
}

/// Over any sequence of accepted or rejected observations, no peak ever
/// decreases: the usage after the whole sequence dominates the usage after any
/// prefix of it; and usage that starts within the budget stays within it.
pub proof fn lemma_peaks_never_decrease(
    budget: BufferBudget,
    usage: BufferUsageView,
    observations: Seq<(BufferDirection, nat, nat)>,
    prefix: int,
)
    requires
        0 <= prefix <= observations.len(),
    ensures
        peaks_at_least(
            usage_after_observations(budget, usage, observations),
            usage_after_observations(budget, usage, observations.take(prefix)),
        ),
        within_budget(budget, usage) ==> within_budget(
            budget,
            usage_after_observations(budget, usage, observations),
        ),
    decreases observations.len(),
{
    if observations.len() > 0 {
        let shorter = observations.drop_last();
        if prefix == observations.len() {
            assert(observations.take(prefix) =~= observations);
            lemma_peaks_never_decrease(budget, usage, shorter, 0);
        } else {
            assert(shorter.take(prefix) =~= observations.take(prefix));
            lemma_peaks_never_decrease(budget, usage, shorter, prefix);
        }
    }
}

/// Validates one observation against `limit` and returns the raised peaks.
///
/// An observation above the limit is rejected and changes nothing; otherwise
/// each peak becomes the larger of itself and the observed value.
fn observe(
    direction: BufferDirection,
    bytes: usize,
    capacity: usize,
    limit: usize,
    peak_bytes: usize,
    peak_capacity: usize,
) -> (peaks: Result<(usize, usize), BufferLimitError>)
    ensures
        bytes > limit ==> peaks == Err::<(usize, usize), BufferLimitError>(
            BufferLimitError { direction, attempted: bytes, limit },
        ),
        bytes <= limit ==> peaks == Ok::<(usize, usize), BufferLimitError>(
            (peak(peak_bytes as nat, bytes as nat) as usize, peak(peak_capacity as nat, capacity as nat) as usize),
        ),
    no_unwind
{
    if bytes > limit {
        return Err(BufferLimitError { direction, attempted: bytes, limit });
    }
    let new_bytes = if bytes > peak_bytes {
        bytes
    } else {
        peak_bytes
    };
    let new_capacity = if capacity > peak_capacity {
        capacity
    } else {
        peak_capacity
    };
    Ok((new_bytes, new_capacity))
}

impl BufferAccountant {
    #[verifier::type_invariant]
    closed spec fn peaks_within_budget(self) -> bool {
        &&& self.usage.inbound_bytes <= self.budget.max_inbound_bytes
        &&& self.usage.outbound_bytes <= self.budget.max_outbound_bytes
    }

    /// The budget this accountant enforces.
    pub closed spec fn spec_budget(self) -> BufferBudget {
        self.budget
    }

    /// The peaks recorded so far.
    pub closed spec fn spec_usage(self) -> BufferUsageView {
        self.usage@
    }

    /// Creates zeroed measurements under a validated budget.
    pub fn new(budget: BufferBudget) -> (accountant: Self)
        ensures
            accountant.spec_budget() == budget,
            accountant.spec_usage() == zero_usage(),
    {
        BufferAccountant {
            budget,
            usage: BufferUsage {
                inbound_bytes: 0,
                inbound_capacity: 0,
                outbound_bytes: 0,
                outbound_capacity: 0,
            },
        }
    }

    /// Enforces and records one inbound logical length/allocation observation.
    ///
    /// Rejects `bytes` above the inbound limit without changing any peak;
    /// otherwise raises the inbound peaks to the observed values.
    pub fn observe_inbound(&mut self, bytes: usize, capacity: usize) -> (result: Result<
        (),
        BufferLimitError,
    >)
        ensures
            final(self).spec_budget() == old(self).spec_budget(),
            bytes > old(self).spec_budget().inbound_limit() ==> {
                &&& result == Err::<(), BufferLimitError>(
                    BufferLimitError {
                        direction: BufferDirection::Inbound,
                        attempted: bytes,
                        limit: old(self).spec_budget().inbound_limit() as usize,
                    },
                )
                &&& final(self).spec_usage() == old(self).spec_usage()
            },
            final(self).spec_usage() == observed_usage(
                old(self).spec_budget(),
                old(self).spec_usage(),
                BufferDirection::Inbound,
                bytes as nat,
                capacity as nat,
            ),
            bytes <= old(self).spec_budget().inbound_limit() ==> {
                &&& result is Ok
                &&& final(self).spec_usage() == usage_after_inbound(
                    old(self).spec_usage(),
                    bytes as nat,
                    capacity as nat,
                )
            },
        no_unwind
    {
        proof {
            use_type_invariant(&*self);
            use_type_invariant(&self.budget);
        }
        match observe(
            BufferDirection::Inbound,
            bytes,
            capacity,
            self.budget.max_inbound_bytes,
            self.usage.inbound_bytes,
            self.usage.inbound_capacity,
        ) {
            Err(failure) => Err(failure),
            Ok((inbound_bytes, inbound_capacity)) => {
                self.usage = BufferUsage { inbound_bytes, inbound_capacity, ..self.usage };
                Ok(())
            },
        }
    }

    /// Enforces and records one outbound logical length/allocation observation.
    ///
    /// Rejects `bytes` above the outbound limit without changing any peak;
    /// otherwise raises the outbound peaks to the observed values.
    pub fn observe_outbound(&mut self, bytes: usize, capacity: usize) -> (result: Result<
        (),
        BufferLimitError,
    >)
        ensures
            final(self).spec_budget() == old(self).spec_budget(),
            bytes > old(self).spec_budget().outbound_limit() ==> {
                &&& result == Err::<(), BufferLimitError>(
                    BufferLimitError {
                        direction: BufferDirection::Outbound,
                        attempted: bytes,
                        limit: old(self).spec_budget().outbound_limit() as usize,
                    },
                )
                &&& final(self).spec_usage() == old(self).spec_usage()
            },
            final(self).spec_usage() == observed_usage(
                old(self).spec_budget(),
                old(self).spec_usage(),
                BufferDirection::Outbound,
                bytes as nat,
                capacity as nat,
            ),
            bytes <= old(self).spec_budget().outbound_limit() ==> {
                &&& result is Ok
                &&& final(self).spec_usage() == usage_after_outbound(
                    old(self).spec_usage(),
                    bytes as nat,
                    capacity as nat,
                )
            },
        no_unwind
    {
        proof {
            use_type_invariant(&*self);
            use_type_invariant(&self.budget);
        }
        match observe(
            BufferDirection::Outbound,
            bytes,
            capacity,
            self.budget.max_outbound_bytes,
            self.usage.outbound_bytes,
            self.usage.outbound_capacity,
        ) {
            Err(failure) => Err(failure),
            Ok((outbound_bytes, outbound_capacity)) => {
                self.usage = BufferUsage { outbound_bytes, outbound_capacity, ..self.usage };
                Ok(())
            },
        }
    }

    /// Returns a copyable consistent usage snapshot.
    pub fn usage(&self) -> (usage: BufferUsage)
        ensures
            usage@ == self.spec_usage(),
            usage@.inbound_bytes <= self.spec_budget().inbound_limit(),
            usage@.outbound_bytes <= self.spec_budget().outbound_limit(),
    {
        proof {
            use_type_invariant(self);
        }
        self.usage
    }

    /// Returns the immutable budget enforced by this accountant.
    pub fn budget(&self) -> (budget: BufferBudget)
        ensures
            budget == self.spec_budget(),
    {
        self.budget
    }
}

} // verus!
