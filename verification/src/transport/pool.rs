//! Bounded reusable byte-buffer pool accounting with measured reuse.
//!
//! A pool retains at most a configured number of empty buffers, each no larger
//! than an inclusive capacity ceiling. [`PoolLedger`] holds the retained buffers
//! and operational counters and makes every acquisition and return decision; the
//! shared handle that locks it and returns buffers on drop belongs to the runtime.
//!
//! The ledger does not size protocol frames, enforce live logical-byte budgets,
//! clear secret memory, or perform asynchronous I/O.

use crate::transport::wire::{buffer_capacity, buffer_clear, buffer_with_capacity, bytes_mut_contents};
use bytes::BytesMut;
use vstd::prelude::*;

verus! {

/// Positive retained-count and per-allocation capacity ceilings.
#[derive(Debug, Clone, Copy, PartialEq, Eq, Structural)]
pub struct BufferPoolConfig {
    max_retained_buffers: usize,
    max_buffer_capacity: usize,
}

/// Stable pool configuration and acquisition failures.
#[derive(Debug, Clone, Copy, PartialEq, Eq, Structural)]
pub enum BufferPoolError {
    ZeroRetainedBuffers,
    ZeroBufferCapacity,
    RequestExceedsCapacity { requested: usize, limit: usize },
}

impl BufferPoolConfig {
    #[verifier::type_invariant]
    closed spec fn ceilings_positive(self) -> bool {
        self.max_retained_buffers > 0 && self.max_buffer_capacity > 0
    }

    /// Maximum number of empty buffers retained.
    pub closed spec fn spec_max_retained(self) -> nat {
        self.max_retained_buffers as nat
    }

    /// Maximum capacity of one buffer, in bytes.
    pub closed spec fn spec_max_capacity(self) -> nat {
        self.max_buffer_capacity as nat
    }

    /// Creates independent positive pool resource ceilings; the retained count
    /// is validated before the byte capacity and nothing is allocated.
    pub fn new(max_retained_buffers: usize, max_buffer_capacity: usize) -> (config: Result<
        Self,
        BufferPoolError,
    >)
        ensures
            max_retained_buffers == 0 ==> config == Err::<Self, BufferPoolError>(
                BufferPoolError::ZeroRetainedBuffers,
            ),
            max_retained_buffers != 0 && max_buffer_capacity == 0 ==> config == Err::<
                Self,
                BufferPoolError,
            >(BufferPoolError::ZeroBufferCapacity),
            max_retained_buffers != 0 && max_buffer_capacity != 0 ==> (config matches Ok(c)
                && c.spec_max_retained() == max_retained_buffers && c.spec_max_capacity()
                == max_buffer_capacity),
    {
        if max_retained_buffers == 0 {
            return Err(BufferPoolError::ZeroRetainedBuffers);
        }
        if max_buffer_capacity == 0 {
            return Err(BufferPoolError::ZeroBufferCapacity);
        }
        Ok(BufferPoolConfig { max_retained_buffers, max_buffer_capacity })
    }

    /// Returns the maximum number of empty buffers retained.
    pub fn max_retained_buffers(&self) -> (count: usize)
        ensures
            count == self.spec_max_retained(),
            count > 0,
    {
        proof {
            use_type_invariant(self);
        }
        self.max_retained_buffers
    }

    /// Returns the maximum capacity of one pooled buffer.
    pub fn max_buffer_capacity(&self) -> (capacity: usize)
        ensures
            capacity == self.spec_max_capacity(),
            capacity > 0,
    {
        proof {
            use_type_invariant(self);
        }
        self.max_buffer_capacity
    }
}

/// Copyable operational counters for one pool.
#[derive(Debug, Clone, Copy, PartialEq, Eq, Structural)]
pub struct BufferPoolSnapshot {
    retained_buffers: usize,
    acquisitions: u64,
    reuses: u64,
    discarded_returns: u64,
}

/// Mathematical value of a [`BufferPoolSnapshot`].
pub struct PoolCounters {
    pub retained_buffers: nat,
    pub acquisitions: nat,
    pub reuses: nat,
    pub discarded_returns: nat,
}

impl View for BufferPoolSnapshot {
    type V = PoolCounters;

    closed spec fn view(&self) -> PoolCounters {
        PoolCounters {
            retained_buffers: self.retained_buffers as nat,
            acquisitions: self.acquisitions as nat,
            reuses: self.reuses as nat,
            discarded_returns: self.discarded_returns as nat,
        }
    }
}

impl BufferPoolSnapshot {
    /// Returns the currently retained empty buffer count.
    pub fn retained_buffers(&self) -> (count: usize)
        ensures
            count == self@.retained_buffers,
    {
        self.retained_buffers
    }

    /// Returns the saturating count of successful acquisitions.
    pub fn acquisitions(&self) -> (count: u64)
        ensures
            count == self@.acquisitions,
    {
        self.acquisitions
    }

    /// Returns the saturating count of acquisitions served from retained buffers.
    pub fn reuses(&self) -> (count: u64)
        ensures
            count == self@.reuses,
    {
        self.reuses
    }

    /// Returns the saturating count of returns discarded by the pool's bounds.
    pub fn discarded_returns(&self) -> (count: u64)
        ensures
            count == self@.discarded_returns,
    {
        self.discarded_returns
    }
}

/// `current + 1`, saturating at `u64::MAX`.
pub open spec fn bumped(current: nat) -> nat {
    if current < u64::MAX {
        current + 1
    } else {
        current
    }
}

/// Whether `position` is the last retained buffer whose capacity covers `requested`.
pub open spec fn last_sufficient(capacities: Seq<usize>, requested: nat, position: int) -> bool {
    &&& 0 <= position < capacities.len()
    &&& capacities[position] >= requested
    &&& forall|k: int| position < k < capacities.len() ==> capacities[k] < requested
}

/// Whether some retained buffer's capacity covers `requested`.
pub open spec fn any_sufficient(capacities: Seq<usize>, requested: nat) -> bool {
    exists|k: int| 0 <= k < capacities.len() && capacities[k] >= requested
}

/// Whether a returned buffer of `observed` capacity is kept: its capacity is
/// within the per-buffer ceiling and fewer than the maximum are retained.
pub open spec fn keeps_return(config: BufferPoolConfig, retained_count: nat, observed: nat) -> bool {
    observed <= config.spec_max_capacity() && retained_count < config.spec_max_retained()
}

/// What the pool keeps in every state: at most the maximum number of retained
/// buffers, each one empty, each with a recorded capacity within the ceiling.
pub open spec fn retention_holds(ledger: PoolLedger) -> bool {
    &&& ledger.retained_buffers().len() == ledger.retained_capacities().len()
    &&& ledger.retained_capacities().len() <= ledger.spec_config().spec_max_retained()
    &&& forall|k: int|
        0 <= k < ledger.retained_buffers().len() ==> bytes_mut_contents(
            #[trigger] ledger.retained_buffers()[k],
        ) == Seq::<u8>::empty()
    &&& forall|k: int|
        0 <= k < ledger.retained_capacities().len() ==> #[trigger] ledger.retained_capacities()[k]
            <= ledger.spec_config().spec_max_capacity()
}

/// Retained empty buffers, their capacities, and the pool's counters.
pub struct PoolLedger {
    config: BufferPoolConfig,
    buffers: Vec<BytesMut>,
    capacities: Vec<usize>,
    acquisitions: u64,
    reuses: u64,
    discarded_returns: u64,
}

impl PoolLedger {
    #[verifier::type_invariant]
    closed spec fn ledger_valid(self) -> bool {
        &&& self.buffers.len() == self.capacities.len()
        &&& self.capacities.len() <= self.config.max_retained_buffers
        &&& forall|k: int|
            0 <= k < self.capacities.len() ==> #[trigger] self.capacities@[k]
                <= self.config.max_buffer_capacity
        &&& forall|k: int|
            0 <= k < self.buffers.len() ==> bytes_mut_contents(#[trigger] self.buffers@[k])
                == Seq::<u8>::empty()
        &&& self.reuses <= self.acquisitions
    }

    /// The ceilings this ledger enforces.
    pub closed spec fn spec_config(self) -> BufferPoolConfig {
        self.config
    }

    /// Capacities of the retained buffers, oldest first.
    pub closed spec fn retained_capacities(self) -> Seq<usize> {
        self.capacities@
    }

    /// The retained buffers themselves, in the same order as their capacities.
    pub closed spec fn retained_buffers(self) -> Seq<BytesMut> {
        self.buffers@
    }

    /// The ledger's counters.
    pub closed spec fn counters(self) -> PoolCounters {
        PoolCounters {
            retained_buffers: self.capacities.len() as nat,
            acquisitions: self.acquisitions as nat,
            reuses: self.reuses as nat,
            discarded_returns: self.discarded_returns as nat,
        }
    }

    /// Creates an empty pool without preallocating byte storage.
    pub fn new(config: BufferPoolConfig) -> (ledger: Self)
        ensures
            ledger.spec_config() == config,
            ledger.retained_capacities() == Seq::<usize>::empty(),
            retention_holds(ledger),
            ledger.counters() == (PoolCounters {
                retained_buffers: 0,
                acquisitions: 0,
                reuses: 0,
                discarded_returns: 0,
            }),
    {
        let ledger = PoolLedger {
            config,
            buffers: Vec::new(),
            capacities: Vec::new(),
            acquisitions: 0,
            reuses: 0,
            discarded_returns: 0,
        };
        assert(ledger.retained_capacities() =~= Seq::<usize>::empty());
        ledger
    }

    /// Acquires one empty buffer with at least the requested capacity, and
    /// reports that capacity.
    ///
    /// A request above the pool ceiling is rejected before anything changes.
    /// Otherwise the last retained buffer whose capacity covers the request is
    /// reused and removed (the final retained buffer takes its place), with the
    /// capacity recorded when it was returned; when none does, a new buffer is
    /// allocated and its reported capacity is returned. Counters saturate.
    pub fn acquire(&mut self, requested: usize) -> (buffer: Result<(BytesMut, usize), BufferPoolError>)
        ensures
            final(self).spec_config() == old(self).spec_config(),
            retention_holds(*final(self)),
            requested > old(self).spec_config().spec_max_capacity() ==> {
                &&& buffer == Err::<(BytesMut, usize), BufferPoolError>(
                    BufferPoolError::RequestExceedsCapacity {
                        requested,
                        limit: old(self).spec_config().spec_max_capacity() as usize,
                    },
                )
                &&& final(self).retained_capacities() == old(self).retained_capacities()
                &&& final(self).retained_buffers() == old(self).retained_buffers()
                &&& final(self).counters() == old(self).counters()
            },
            requested <= old(self).spec_config().spec_max_capacity() ==> {
                &&& buffer matches Ok((b, capacity)) && bytes_mut_contents(b) == Seq::<u8>::empty()
                    && capacity >= requested
                &&& final(self).counters().acquisitions == bumped(old(self).counters().acquisitions)
                &&& final(self).counters().discarded_returns == old(self).counters().discarded_returns
            },
            requested <= old(self).spec_config().spec_max_capacity() && !any_sufficient(
                old(self).retained_capacities(),
                requested as nat,
            ) ==> {
                &&& final(self).retained_capacities() == old(self).retained_capacities()
                &&& final(self).retained_buffers() == old(self).retained_buffers()
                &&& final(self).counters().reuses == old(self).counters().reuses
            },
            requested <= old(self).spec_config().spec_max_capacity() && any_sufficient(
                old(self).retained_capacities(),
                requested as nat,
            ) ==> exists|position: int|
                last_sufficient(old(self).retained_capacities(), requested as nat, position) && {
                    let caps = old(self).retained_capacities();
                    let kept = old(self).retained_buffers();
                    &&& final(self).retained_capacities() == caps.update(position, caps.last()).drop_last()
                    &&& final(self).retained_buffers() == kept.update(position, kept.last()).drop_last()
                    &&& buffer == Ok::<(BytesMut, usize), BufferPoolError>((kept[position], caps[position]))
                } && final(self).counters().reuses == bumped(old(self).counters().reuses),
            final(self).counters().retained_buffers == final(self).retained_capacities().len(),
            final(self).counters().reuses <= final(self).counters().acquisitions,
    {
        proof {
            use_type_invariant(&*self);
            use_type_invariant(&self.config);
        }
        let limit = self.config.max_buffer_capacity;
        if requested > limit {
            return Err(BufferPoolError::RequestExceedsCapacity { requested, limit });
        }
        let mut position = self.capacities.len();
        while position > 0 && self.capacities[position - 1] < requested
            invariant
                position <= self.capacities@.len(),
                forall|k: int| position <= k < self.capacities@.len() ==> self.capacities@[k]
                    < requested,
            decreases position,
        {
            position = position - 1;
        }
        let ghost caps = self.capacities@;
        let mut taken = PoolLedger::new(self.config);
        std::mem::swap(&mut taken, self);
        proof {
            use_type_invariant(&taken);
        }
        let PoolLedger { config, mut buffers, mut capacities, acquisitions, reuses, discarded_returns } = taken;
        let acquisitions = acquisitions.saturating_add(1);
        let buffer;
        let capacity;
        let mut reuses = reuses;
        if position == 0 {
            proof {
                assert(!any_sufficient(caps, requested as nat));
            }
            let (made, observed) = buffer_with_capacity(requested);
            buffer = made;
            capacity = observed;
        } else {
            let index = position - 1;
            proof {
                assert(last_sufficient(caps, requested as nat, index as int));
            }
            reuses = reuses.saturating_add(1);
            let ghost old_buffers = buffers@;
            buffer = buffers.swap_remove(index);
            capacity = capacities.swap_remove(index);
            proof {
                assert(capacities@ =~= caps.update(index as int, caps.last()).drop_last());
                assert(bytes_mut_contents(buffer) == bytes_mut_contents(old_buffers[index as int]));
                assert forall|k: int| 0 <= k < buffers.len() implies bytes_mut_contents(
                    #[trigger] buffers@[k],
                ) == Seq::<u8>::empty() by {
                    if k == index {
                        assert(buffers@[k] == old_buffers[old_buffers.len() - 1]);
                    } else {
                        assert(buffers@[k] == old_buffers[k]);
                    }
                }
                assert forall|k: int| 0 <= k < capacities.len() implies #[trigger] capacities@[k]
                    <= config.max_buffer_capacity by {
                    if k == index {
                        assert(capacities@[k] == caps[caps.len() - 1]);
                    } else {
                        assert(capacities@[k] == caps[k]);
                    }
                }
            }
        }
        *self = PoolLedger { config, buffers, capacities, acquisitions, reuses, discarded_returns };
        Ok((buffer, capacity))
    }

    /// Returns one buffer's allocation to the pool or discards it, and reports
    /// the capacity it observed.
    ///
    /// The buffer is cleared; it is retained when its observed capacity is
    /// within the ceiling and fewer than the maximum number of buffers are
    /// retained, and otherwise dropped and counted as a discarded return.
    pub fn release(&mut self, buffer: BytesMut) -> (observed: usize)
        ensures
            final(self).spec_config() == old(self).spec_config(),
            retention_holds(*final(self)),
            final(self).counters().acquisitions == old(self).counters().acquisitions,
            final(self).counters().reuses == old(self).counters().reuses,
            keeps_return(
                old(self).spec_config(),
                old(self).retained_capacities().len(),
                observed as nat,
            ) ==> {
                &&& final(self).retained_capacities() == old(self).retained_capacities().push(observed)
                &&& final(self).retained_buffers().drop_last() == old(self).retained_buffers()
                &&& final(self).retained_buffers().len() == old(self).retained_buffers().len() + 1
                &&& bytes_mut_contents(final(self).retained_buffers().last()) == Seq::<u8>::empty()
                &&& final(self).counters().discarded_returns == old(self).counters().discarded_returns
            },
            !keeps_return(
                old(self).spec_config(),
                old(self).retained_capacities().len(),
                observed as nat,
            ) ==> {
                &&& final(self).retained_capacities() == old(self).retained_capacities()
                &&& final(self).retained_buffers() == old(self).retained_buffers()
                &&& final(self).counters().discarded_returns == bumped(old(self).counters().discarded_returns)
            },
            final(self).retained_capacities().len() <= final(self).spec_config().spec_max_retained(),
            forall|k: int|
                0 <= k < final(self).retained_capacities().len() ==> #[trigger] final(self).retained_capacities()[k] <= final(self).spec_config().spec_max_capacity(),
            final(self).counters().retained_buffers == final(self).retained_capacities().len(),
    {
        proof {
            use_type_invariant(&*self);
        }
        let mut buffer = buffer;
        buffer_clear(&mut buffer);
        let capacity = buffer_capacity(&buffer);
        let mut taken = PoolLedger::new(self.config);
        std::mem::swap(&mut taken, self);
        proof {
            use_type_invariant(&taken);
        }
        let PoolLedger { config, mut buffers, mut capacities, acquisitions, reuses, discarded_returns } = taken;
        let mut discarded_returns = discarded_returns;
        if capacity <= config.max_buffer_capacity && capacities.len()
            < config.max_retained_buffers {
            let ghost old_buffers = buffers@;
            buffers.push(buffer);
            capacities.push(capacity);
            proof {
                assert forall|k: int| 0 <= k < buffers.len() implies bytes_mut_contents(
                    #[trigger] buffers@[k],
                ) == Seq::<u8>::empty() by {
                    if k < old_buffers.len() {
                        assert(buffers@[k] == old_buffers[k]);
                    }
                }
                assert(capacities@.drop_last() =~= old(self).capacities@);
                assert(buffers@.drop_last() =~= old_buffers);
            }
        } else {
            discarded_returns = discarded_returns.saturating_add(1);
        }
        *self = PoolLedger { config, buffers, capacities, acquisitions, reuses, discarded_returns };
        capacity
    }

    /// Returns a consistent copyable counter snapshot.
    pub fn snapshot(&self) -> (snapshot: BufferPoolSnapshot)
        ensures
            snapshot@ == self.counters(),
            snapshot@.reuses <= snapshot@.acquisitions,
            retention_holds(*self),
    {
        proof {
            use_type_invariant(self);
        }
        BufferPoolSnapshot {
            retained_buffers: self.capacities.len(),
            acquisitions: self.acquisitions,
            reuses: self.reuses,
            discarded_returns: self.discarded_returns,
        }
    }

    /// Returns the configuration this ledger enforces.
    pub fn config(&self) -> (config: BufferPoolConfig)
        ensures
            config == self.spec_config(),
    {
        self.config
    }
}

/// A returned allocation that covers the next request is the one that request
/// reuses, and reusing it leaves exactly the buffers retained before the return.
pub proof fn lemma_returned_buffer_is_reused_first(
    before: Seq<usize>,
    capacity: usize,
    requested: nat,
    position: int,
)
    requires
        capacity >= requested,
    ensures
        any_sufficient(before.push(capacity), requested),
        last_sufficient(before.push(capacity), requested, position) ==> position == before.len(),
        before.push(capacity).update(before.len() as int, before.push(capacity).last()).drop_last()
            == before,
{
    let after = before.push(capacity);
    assert(after[before.len() as int] >= requested);
    assert(after.update(before.len() as int, after.last()).drop_last() =~= before);
}

} // verus!
