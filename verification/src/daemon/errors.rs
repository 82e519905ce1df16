//! Stable structured classification of engine failures for the control plane.
//!
//! Each failure maps to a stable status code, an uppercase machine-readable
//! reason, a retryability decision and a bounded resource identifier. The human
//! message is diagnostic only; clients never need to parse it.
//!
//! Encoding the classification as a gRPC status with a protobuf detail belongs
//! to the runtime.

use vstd::prelude::*;

verus! {

/// A failure reported by the compatibility engine for one control-plane operation.
#[derive(Clone, Debug, Eq, PartialEq)]
pub enum EngineFailure {
    /// The submitted transfer named no source.
    EmptySource,
    /// No transfer is registered under the given identifier.
    UnknownTransfer(String),
    /// The engine's command queue no longer accepts work.
    Closed,
}

/// The gRPC status codes that control-plane failures map to.
#[derive(Clone, Copy, Debug, Eq, PartialEq, Structural)]
pub enum StatusCode {
    InvalidArgument,
    NotFound,
    Unavailable,
    Unauthenticated,
}

/// The stable structured classification of one engine failure.
#[derive(Clone, Debug)]
pub struct StatusClassification {
    /// Status code the failure is reported under.
    pub code: StatusCode,
    /// Stable uppercase reason for machines.
    pub reason: &'static str,
    /// Whether retrying the same request may succeed.
    pub retryable: bool,
    /// Bounded identifier of the resource at fault.
    pub resource: &'static str,
    /// Diagnostic message for humans.
    pub message: String,
}

/// The status code, reason, retryability and resource each failure maps to.
pub open spec fn failure_policy(error: EngineFailure) -> (StatusCode, Seq<char>, bool, Seq<char>) {
    match error {
        EngineFailure::EmptySource => (
            StatusCode::InvalidArgument,
            "INVALID_SOURCE"@,
            false,
            "transfer.source"@,
        ),
        EngineFailure::UnknownTransfer(_) => (
            StatusCode::NotFound,
            "TRANSFER_NOT_FOUND"@,
            false,
            "transfer"@,
        ),
        EngineFailure::Closed => (
            StatusCode::Unavailable,
            "ENGINE_UNAVAILABLE"@,
            true,
            "engine.command_queue"@,
        ),
    }
}

/// The diagnostic message each failure carries.
pub open spec fn failure_message(error: EngineFailure) -> Seq<char> {
    match error {
        EngineFailure::EmptySource => "transfer source cannot be empty"@,
        EngineFailure::UnknownTransfer(id) => "unknown transfer "@ + id@,
        EngineFailure::Closed => "engine command queue is closed"@,
    }
}

/// Classifies one engine failure: its variant alone decides code, reason,
/// retryability and resource; the transfer identifier appears only in the message.
pub fn engine_status(error: EngineFailure) -> (status: StatusClassification)
    ensures
        (status.code, status.reason@, status.retryable, status.resource@) == failure_policy(
            error,
        ),
        status.message@ == failure_message(error),
{
    match error {
        EngineFailure::EmptySource => StatusClassification {
            code: StatusCode::InvalidArgument,
            reason: "INVALID_SOURCE",
            retryable: false,
            resource: "transfer.source",
            message: "transfer source cannot be empty".to_owned(),
        },
        EngineFailure::UnknownTransfer(id) => {
            let mut message = "unknown transfer ".to_owned();
            message.append(id.as_str());
            StatusClassification {
                code: StatusCode::NotFound,
                reason: "TRANSFER_NOT_FOUND",
                retryable: false,
                resource: "transfer",
                message,
            }
        },
        EngineFailure::Closed => StatusClassification {
            code: StatusCode::Unavailable,
            reason: "ENGINE_UNAVAILABLE",
            retryable: true,
            resource: "engine.command_queue",
            message: "engine command queue is closed".to_owned(),
        },
    }
}

/// The structured fields of an unknown-transfer status do not depend on the
/// transfer identifier; only the diagnostic message carries it.
pub proof fn lemma_identifier_only_in_message(first: String, second: String)
    ensures
        failure_policy(EngineFailure::UnknownTransfer(first)) == failure_policy(
            EngineFailure::UnknownTransfer(second),
        ),
        failure_message(EngineFailure::UnknownTransfer(first)).skip(
            "unknown transfer "@.len() as int,
        ) == first@,
{
    assert(failure_message(EngineFailure::UnknownTransfer(first)).skip(
        "unknown transfer "@.len() as int,
    ) =~= first@);
}

} // verus!
