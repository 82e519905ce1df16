//! Bounded reuse of buffer allocations through the pool ledger.

use portunus::transport::pool::{BufferPoolConfig, BufferPoolError, PoolLedger};

// Zero retained count and zero capacity are refused; the one-by-one pool is valid.
#[test]
fn validates_buffer_pool_boundaries() {
    assert_eq!(
        BufferPoolConfig::new(0, 1),
        Err(BufferPoolError::ZeroRetainedBuffers)
    );
    assert_eq!(
        BufferPoolConfig::new(1, 0),
        Err(BufferPoolError::ZeroBufferCapacity)
    );
    assert!(BufferPoolConfig::new(1, 1).is_ok());
}

// A returned buffer is handed out again with the same allocation.
#[test]
fn returns_and_reuses_buffers_within_capacity() {
    let mut pool = PoolLedger::new(BufferPoolConfig::new(1, 8).unwrap());
    let (mut buffer, reported) = pool.acquire(8).unwrap();
    assert!(reported >= 8);
    buffer.extend_from_slice(b"12345678");
    let first_capacity = buffer.capacity();
    pool.release(buffer);
    assert_eq!(pool.snapshot().retained_buffers(), 1);

    let (second, reported) = pool.acquire(8).unwrap();
    assert_eq!(second.capacity(), first_capacity);
    assert_eq!(reported, first_capacity);
    assert!(second.is_empty());
    let snapshot = pool.snapshot();
    assert_eq!(snapshot.acquisitions(), 2);
    assert_eq!(snapshot.reuses(), 1);
}

// One byte over the per-buffer ceiling is refused before anything is counted.
#[test]
fn rejects_one_over_the_pool_buffer_limit() {
    let mut pool = PoolLedger::new(BufferPoolConfig::new(1, 8).unwrap());

    assert_eq!(
        pool.acquire(9).unwrap_err(),
        BufferPoolError::RequestExceedsCapacity {
            requested: 9,
            limit: 8,
        }
    );
    assert_eq!(pool.snapshot().acquisitions(), 0);
}

// Returning two buffers to a one-entry pool keeps one and discards one.
#[test]
fn discards_returns_above_the_retained_count() {
    let mut pool = PoolLedger::new(BufferPoolConfig::new(1, 8).unwrap());
    let (first, _) = pool.acquire(8).unwrap();
    let (second, _) = pool.acquire(8).unwrap();
    pool.release(first);
    pool.release(second);

    let snapshot = pool.snapshot();
    assert_eq!(snapshot.retained_buffers(), 1);
    assert_eq!(snapshot.discarded_returns(), 1);
}

// A new pool reports zero for every counter.
#[test]
fn starts_with_zero_operational_counters() {
    let pool = PoolLedger::new(BufferPoolConfig::new(1, 8).unwrap());
    let snapshot = pool.snapshot();

    assert_eq!(snapshot.retained_buffers(), 0);
    assert_eq!(snapshot.acquisitions(), 0);
    assert_eq!(snapshot.reuses(), 0);
    assert_eq!(snapshot.discarded_returns(), 0);
}

// A buffer that grew past the ceiling is discarded rather than retained.
#[test]
fn discards_returned_buffers_that_outgrew_the_ceiling() {
    let mut pool = PoolLedger::new(BufferPoolConfig::new(2, 4).unwrap());
    let (mut buffer, _) = pool.acquire(4).unwrap();
    buffer.extend_from_slice(&[0; 64]);
    pool.release(buffer);
    let snapshot = pool.snapshot();
    assert_eq!(snapshot.retained_buffers(), 0);
    assert_eq!(snapshot.discarded_returns(), 1);
    assert_eq!(pool.config().max_retained_buffers(), 2);
    assert_eq!(pool.config().max_buffer_capacity(), 4);
}

// A release reports the capacity it observed; within both ceilings it is kept.
#[test]
fn release_reports_the_observed_capacity() {
    let mut pool = PoolLedger::new(BufferPoolConfig::new(2, 64).unwrap());
    let (buffer, reported) = pool.acquire(16).unwrap();
    assert!(reported >= 16);
    let capacity = buffer.capacity();
    assert_eq!(pool.release(buffer), capacity);
    assert_eq!(pool.snapshot().retained_buffers(), 1);
    assert_eq!(pool.snapshot().discarded_returns(), 0);
}

// A fresh allocation reports a capacity that covers the request.
#[test]
fn fresh_allocations_cover_the_request() {
    let mut pool = PoolLedger::new(BufferPoolConfig::new(1, 4096).unwrap());
    let (buffer, reported) = pool.acquire(1000).unwrap();
    assert!(reported >= 1000);
    assert!(buffer.capacity() >= 1000);
    assert!(buffer.is_empty());
}
