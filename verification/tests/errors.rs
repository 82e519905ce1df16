//! Structured classification of engine failures.

use portunus::daemon::errors::{engine_status, EngineFailure, StatusCode};

// Each failure maps to its stable code, reason, retryability and resource.
#[test]
fn maps_engine_failures_to_structured_statuses() {
    let cases = [
        (
            EngineFailure::EmptySource,
            StatusCode::InvalidArgument,
            "INVALID_SOURCE",
            false,
            "transfer.source",
        ),
        (
            EngineFailure::UnknownTransfer("transfer-9".into()),
            StatusCode::NotFound,
            "TRANSFER_NOT_FOUND",
            false,
            "transfer",
        ),
        (
            EngineFailure::Closed,
            StatusCode::Unavailable,
            "ENGINE_UNAVAILABLE",
            true,
            "engine.command_queue",
        ),
    ];
    for (error, code, reason, retryable, resource) in cases {
        let status = engine_status(error);
        assert_eq!(status.code, code);
        assert_eq!(status.reason, reason);
        assert_eq!(status.retryable, retryable);
        assert_eq!(status.resource, resource);
    }
}

// Only the message carries the transfer identifier.
#[test]
fn keeps_identifiers_out_of_structured_fields() {
    let status = engine_status(EngineFailure::UnknownTransfer("abc".into()));
    assert_eq!(status.message, "unknown transfer abc");
    assert_eq!(
        engine_status(EngineFailure::EmptySource).message,
        "transfer source cannot be empty"
    );
    assert_eq!(
        engine_status(EngineFailure::Closed).message,
        "engine command queue is closed"
    );
}
