//! Decisions of one running framed session: admission, accounting and reports.

use portunus::transport::buffer::BufferBudget;
use portunus::transport::driver::DrainStep;
use portunus::transport::driver::{
    default_buffer_budget, initial_inbound_capacity, terminal_error, Flow, SessionDriver,
};
use portunus::transport::report::{ErrorKind, SessionError};
use portunus::transport::session::SessionState;
use portunus::transport::timing::TimingAction;

// An idle session closes with zero frames and zero buffer peaks.
#[test]
fn reports_zero_boundaries_for_an_idle_session() {
    let driver = SessionDriver::start(BufferBudget::new(16, 16).unwrap());
    assert_eq!(driver.state(), SessionState::Active);
    let report = driver.close();
    assert_eq!(report.final_state(), SessionState::Closed);
    assert_eq!(report.inbound_frames(), 0);
    assert_eq!(report.outbound_frames(), 0);
    let usage = report.buffer_usage();
    assert_eq!(usage.peak_inbound_bytes(), 0);
    assert_eq!(usage.peak_inbound_capacity(), 0);
    assert_eq!(usage.peak_outbound_bytes(), 0);
    assert_eq!(usage.peak_outbound_capacity(), 0);
}

// A frame exactly at the outbound limit is admitted and its size reported.
#[test]
fn admits_exact_outbound_buffer_limit_and_reports_usage() {
    let mut driver = SessionDriver::start(BufferBudget::new(16, 5).unwrap());
    assert!(driver.on_encoded(5, 8).is_ok());
    driver.on_written();
    let report = driver.close();
    assert_eq!(report.outbound_frames(), 1);
    assert_eq!(report.buffer_usage().peak_outbound_bytes(), 5);
    assert_eq!(report.buffer_usage().peak_outbound_capacity(), 8);
}

// One byte over the outbound limit is a terminal outbound-buffer failure.
#[test]
fn rejects_one_over_the_outbound_buffer_limit() {
    let mut driver = SessionDriver::start(BufferBudget::new(16, 3).unwrap());
    let error = driver.on_encoded(4, 8).unwrap_err();
    assert_eq!(error.operation(), "outbound_buffer");
    assert_eq!(error.kind(), ErrorKind::InvalidData);
    assert_eq!(error.detail(), "Outbound buffer attempted 4 bytes above limit 3");
    assert_eq!(driver.close().buffer_usage().peak_outbound_bytes(), 0);
}

// Reads may fill the receive buffer to the limit; a full buffer cannot grow.
#[test]
fn admits_exact_inbound_buffer_limit() {
    let mut driver = SessionDriver::start(BufferBudget::new(8, 8).unwrap());
    assert_eq!(driver.read_allowance(3).unwrap(), 5);
    assert_eq!(driver.on_read(5, 8, 8).unwrap(), Flow::Continue);
    assert_eq!(driver.on_delivery(true), Flow::Continue);
    let report = driver.close();
    assert_eq!(report.inbound_frames(), 1);
    assert_eq!(report.buffer_usage().peak_inbound_bytes(), 8);
}

// A receive buffer at the limit holding no complete frame is a terminal failure.
#[test]
fn rejects_one_over_the_inbound_buffer_limit() {
    let driver = SessionDriver::start(BufferBudget::new(8, 8).unwrap());
    let error = driver.read_allowance(8).unwrap_err();
    assert_eq!(error.operation(), "inbound_buffer");
    assert_eq!(error.kind(), ErrorKind::InvalidData);
    assert_eq!(error.detail(), "Inbound buffer attempted 9 bytes above limit 8");
    let mut driver = SessionDriver::start(BufferBudget::new(8, 8).unwrap());
    assert_eq!(driver.on_read(1, 9, 16).unwrap_err().operation(), "inbound_buffer");
}

// End of stream and a closed application queue both close the session.
#[test]
fn closes_on_end_of_stream_and_dropped_receivers() {
    let mut driver = SessionDriver::start(default_buffer_budget());
    assert_eq!(driver.on_read(0, 0, 0).unwrap(), Flow::Close);
    assert_eq!(driver.on_delivery(false), Flow::Close);
    assert_eq!(driver.inbound_frames(), 0);
    driver.on_cancelled();
    assert_eq!(driver.state(), SessionState::Draining);
    assert_eq!(driver.close().final_state(), SessionState::Closed);
}

// The compatibility budget and the first receive allocation.
#[test]
fn starts_with_bounded_compatibility_buffers() {
    let budget = default_buffer_budget();
    assert_eq!(budget.max_inbound_bytes(), 1024 * 1024);
    assert_eq!(budget.max_outbound_bytes(), 1024 * 1024);
    assert_eq!(initial_inbound_capacity(budget), 8 * 1024);
    assert_eq!(initial_inbound_capacity(BufferBudget::new(100, 1).unwrap()), 100);
    assert_eq!(SessionDriver::start(budget).budget(), budget);
}

// Idle eviction and deadlines end sessions as distinct timeouts.
#[test]
fn reports_timing_terminations_as_timeouts() {
    let idle = terminal_error(TimingAction::IdleEviction);
    assert_eq!(idle.operation(), "idle");
    assert_eq!(idle.kind(), ErrorKind::TimedOut);
    assert_eq!(idle.detail(), "idle boundary elapsed");
    let deadline = terminal_error(TimingAction::DeadlineElapsed);
    assert_eq!(deadline.operation(), "deadline");
    assert_eq!(deadline.detail(), "deadline boundary elapsed");
    let task = SessionError::task("join failed".to_string());
    assert_eq!(task.operation(), "task");
    assert_eq!(task.kind(), ErrorKind::Other);
    let io = SessionError::io("read", ErrorKind::ConnectionReset, "reset".to_string());
    assert_eq!(io.kind(), ErrorKind::ConnectionReset);
    assert_eq!(io.detail(), "reset");
}

// A draining session writes every accepted frame before it closes.
#[test]
fn drains_accepted_frames_before_closing() {
    let mut driver = SessionDriver::start(BufferBudget::new(8, 8).unwrap());
    driver.on_cancelled();
    assert_eq!(driver.drain_step(true), DrainStep::WriteAccepted);
    assert_eq!(driver.drain_step(false), DrainStep::Close);
}
