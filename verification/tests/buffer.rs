//! Budget validation and peak accounting of session buffers.

use portunus::transport::buffer::{
    BufferAccountant, BufferBudget, BufferConfigError, BufferDirection, BufferLimitError,
};

// Zero limits fail per direction; one-byte limits are accepted.
#[test]
fn validates_independent_buffer_budget_boundaries() {
    assert_eq!(
        BufferBudget::new(0, 1),
        Err(BufferConfigError::ZeroLimit {
            direction: BufferDirection::Inbound,
        })
    );
    assert_eq!(
        BufferBudget::new(1, 0),
        Err(BufferConfigError::ZeroLimit {
            direction: BufferDirection::Outbound,
        })
    );
    let budget = BufferBudget::new(1, 1).unwrap();
    assert_eq!(budget.max_inbound_bytes(), 1);
    assert_eq!(budget.max_outbound_bytes(), 1);
}

// The exact limit is admitted; one byte over is rejected and leaves the peaks alone.
#[test]
fn accounts_exact_and_rejected_inbound_growth() {
    let mut accountant = BufferAccountant::new(BufferBudget::new(8, 16).unwrap());
    accountant.observe_inbound(8, 16).unwrap();
    assert_eq!(
        accountant.observe_inbound(9, 32),
        Err(BufferLimitError {
            direction: BufferDirection::Inbound,
            attempted: 9,
            limit: 8,
        })
    );

    let usage = accountant.usage();
    assert_eq!(usage.peak_inbound_bytes(), 8);
    assert_eq!(usage.peak_inbound_capacity(), 16);
}

// Outbound peaks grow monotonically and are rejected independently of inbound.
#[test]
fn accounts_outbound_allocation_independently() {
    let mut accountant = BufferAccountant::new(BufferBudget::new(4, 8).unwrap());
    accountant.observe_outbound(3, 4).unwrap();
    accountant.observe_outbound(8, 16).unwrap();
    assert_eq!(
        accountant.observe_outbound(9, 32),
        Err(BufferLimitError {
            direction: BufferDirection::Outbound,
            attempted: 9,
            limit: 8,
        })
    );

    let usage = accountant.usage();
    assert_eq!(usage.peak_outbound_bytes(), 8);
    assert_eq!(usage.peak_outbound_capacity(), 16);
}

// A smaller later observation never lowers a recorded peak.
#[test]
fn peaks_never_decrease_after_smaller_observations() {
    let mut accountant = BufferAccountant::new(BufferBudget::new(10, 10).unwrap());
    accountant.observe_inbound(7, 9).unwrap();
    accountant.observe_inbound(2, 3).unwrap();
    accountant.observe_outbound(0, 0).unwrap();
    let usage = accountant.usage();
    assert_eq!(usage.peak_inbound_bytes(), 7);
    assert_eq!(usage.peak_inbound_capacity(), 9);
    assert_eq!(usage.peak_outbound_bytes(), 0);
    assert_eq!(usage.peak_outbound_capacity(), 0);
    assert_eq!(accountant.budget(), BufferBudget::new(10, 10).unwrap());
}
