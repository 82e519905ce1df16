//! Stable terminal reports and failures for the framed-session runtime.
//!
//! Reports count only completed application/I/O handoffs. Errors retain a bounded
//! operation label plus an I/O-style category so telemetry and retry policy do not
//! parse prose. Detail text is diagnostic and is not a compatibility key.
//!
//! This module owns result contracts only. It does not perform I/O, transition
//! lifecycle state, classify retryability, log failures, or expose payload bytes.

use crate::transport::buffer::{BufferDirection, BufferLimitError, BufferUsage, BufferUsageView};
use crate::transport::session::SessionState;
use vstd::prelude::*;

verus! {

/// Measured terminal state returned after an orderly session shutdown.
#[derive(Debug, Clone, Copy, PartialEq, Eq, Structural)]
pub struct SessionReport {
    final_state: SessionState,
    inbound_frames: u64,
    outbound_frames: u64,
    buffer_usage: BufferUsage,
}

/// Mathematical value of a [`SessionReport`].
pub struct SessionReportView {
    pub final_state: SessionState,
    pub inbound_frames: nat,
    pub outbound_frames: nat,
    pub buffer_usage: BufferUsageView,
}

impl View for SessionReport {
    type V = SessionReportView;

    closed spec fn view(&self) -> SessionReportView {
        SessionReportView {
            final_state: self.final_state,
            inbound_frames: self.inbound_frames as nat,
            outbound_frames: self.outbound_frames as nat,
            buffer_usage: self.buffer_usage@,
        }
    }
}

impl SessionReport {
    /// Creates a terminal report at the runtime ownership boundary.
    pub(crate) fn new(
        final_state: SessionState,
        inbound_frames: u64,
        outbound_frames: u64,
        buffer_usage: BufferUsage,
    ) -> (report: Self)
        ensures
            report@ == (SessionReportView {
                final_state,
                inbound_frames: inbound_frames as nat,
                outbound_frames: outbound_frames as nat,
                buffer_usage: buffer_usage@,
            }),
    {
        SessionReport { final_state, inbound_frames, outbound_frames, buffer_usage }
    }

    /// Returns the lifecycle state reached before task completion.
    pub fn final_state(&self) -> (state: SessionState)
        ensures
            state == self@.final_state,
    {
        self.final_state
    }

    /// Returns the count of inbound frames delivered to the application.
    pub fn inbound_frames(&self) -> (count: u64)
        ensures
            count == self@.inbound_frames,
    {
        self.inbound_frames
    }

    /// Returns the count of outbound frames written completely.
    pub fn outbound_frames(&self) -> (count: u64)
        ensures
            count == self@.outbound_frames,
    {
        self.outbound_frames
    }

    /// Returns peak logical and allocated buffer measurements.
    pub fn buffer_usage(&self) -> (usage: BufferUsage)
        ensures
            usage@ == self@.buffer_usage,
    {
        self.buffer_usage
    }
}

/// Categories of I/O-compatible failure, mirroring the standard I/O error kinds
/// that transports and codecs report; unlisted kinds are [`ErrorKind::Other`].
#[derive(Debug, Clone, Copy, PartialEq, Eq, Structural)]
pub enum ErrorKind {
    NotFound,
    PermissionDenied,
    ConnectionRefused,
    ConnectionReset,
    ConnectionAborted,
    NotConnected,
    AddrInUse,
    AddrNotAvailable,
    BrokenPipe,
    AlreadyExists,
    WouldBlock,
    InvalidInput,
    InvalidData,
    TimedOut,
    WriteZero,
    Interrupted,
    Unsupported,
    UnexpectedEof,
    OutOfMemory,
    HostUnreachable,
    NetworkUnreachable,
    NetworkDown,
    NotADirectory,
    IsADirectory,
    DirectoryNotEmpty,
    ReadOnlyFilesystem,
    StaleNetworkFileHandle,
    StorageFull,
    NotSeekable,
    QuotaExceeded,
    FileTooLarge,
    ResourceBusy,
    ExecutableFileBusy,
    Deadlock,
    CrossesDevices,
    TooManyLinks,
    InvalidFilename,
    ArgumentListTooLong,
    Other,
}

/// Stable terminal operation context for codec, transport, and task failures.
#[derive(Debug, PartialEq, Eq)]
pub struct SessionError {
    operation: &'static str,
    kind: ErrorKind,
    detail: String,
}

/// The character of one decimal digit.
pub open spec fn digit_char(digit: nat) -> char {
    seq!['0', '1', '2', '3', '4', '5', '6', '7', '8', '9'][digit as int]
}

/// The decimal text of `n`, most significant digit first, with no leading zeros.
pub open spec fn decimal_text(n: nat) -> Seq<char>
    decreases n,
{
    if n < 10 {
        seq![digit_char(n)]
    } else {
        decimal_text(n / 10) + seq![digit_char(n % 10)]
    }
}

/// The name of a buffer direction as its derived `Debug` writes it.
pub open spec fn direction_name(direction: BufferDirection) -> Seq<char> {
    match direction {
        BufferDirection::Inbound => "Inbound"@,
        BufferDirection::Outbound => "Outbound"@,
    }
}

/// The diagnostic text of a buffer limit rejection.
pub open spec fn buffer_limit_text(failure: BufferLimitError) -> Seq<char> {
    direction_name(failure.direction) + " buffer attempted "@ + decimal_text(
        failure.attempted as nat,
    ) + " bytes above limit "@ + decimal_text(failure.limit as nat)
}

/// The one-character text of a decimal digit.
fn digit_text(digit: usize) -> (text: &'static str)
    requires
        digit < 10,
    ensures
        text@ == seq![digit_char(digit as nat)],
{
    proof {
        reveal_strlit("0");
        reveal_strlit("1");
        reveal_strlit("2");
        reveal_strlit("3");
        reveal_strlit("4");
        reveal_strlit("5");
        reveal_strlit("6");
        reveal_strlit("7");
        reveal_strlit("8");
        reveal_strlit("9");
    }
    match digit {
        0 => "0",
        1 => "1",
        2 => "2",
        3 => "3",
        4 => "4",
        5 => "5",
        6 => "6",
        7 => "7",
        8 => "8",
        _ => "9",
    }
}

/// Appends the decimal text of `n` to `text`.
fn append_decimal(text: &mut String, n: usize)
    ensures
        final(text)@ == old(text)@ + decimal_text(n as nat),
    decreases n,
{
    if n >= 10 {
        append_decimal(text, n / 10);
    }
    text.append(digit_text(n % 10));
    proof {
        if n >= 10 {
            assert(old(text)@ + decimal_text((n / 10) as nat) + seq![digit_char((n % 10) as nat)]
                =~= old(text)@ + decimal_text(n as nat));
        } else {
            assert(old(text)@ + seq![digit_char(n as nat)] =~= old(text)@ + decimal_text(n as nat));
        }
    }
}

/// Text of a buffer limit rejection: the direction's name, then the attempted
/// bytes and the limit in decimal.
fn describe_buffer_limit(failure: BufferLimitError) -> (detail: String)
    ensures
        detail@ == buffer_limit_text(failure),
{
    let mut detail = match failure.direction {
        BufferDirection::Inbound => "Inbound".to_owned(),
        BufferDirection::Outbound => "Outbound".to_owned(),
    };
    detail.append(" buffer attempted ");
    append_decimal(&mut detail, failure.attempted);
    detail.append(" bytes above limit ");
    append_decimal(&mut detail, failure.limit);
    detail
}

/// Text of a timing boundary: the operation label followed by ` boundary elapsed`.
fn describe_timeout(operation: &str) -> (detail: String)
    ensures
        detail@ == operation@ + " boundary elapsed"@,
{
    let mut detail = operation.to_owned();
    detail.append(" boundary elapsed");
    detail
}

/// Whether `operation` labels a transport I/O or codec step.
pub open spec fn is_io_operation(operation: Seq<char>) -> bool {
    operation == "decode"@ || operation == "encode"@ || operation == "read"@ || operation
        == "write"@
}

/// Whether `operation` labels a timing termination.
pub open spec fn is_timing_operation(operation: Seq<char>) -> bool {
    operation == "idle"@ || operation == "deadline"@
}

/// Whether `operation` labels a buffer limit rejection.
pub open spec fn is_buffer_operation(operation: Seq<char>) -> bool {
    operation == "inbound_buffer"@ || operation == "outbound_buffer"@
}

/// The failures a session can report: an I/O or codec step with the category
/// of its underlying error, a task failure (`Other`), a timing termination
/// (`TimedOut`), or a buffer limit rejection (`InvalidData`).
pub open spec fn reported_failure(operation: Seq<char>, kind: ErrorKind) -> bool {
    ||| is_io_operation(operation)
    ||| operation == "task"@ && kind == ErrorKind::Other
    ||| is_timing_operation(operation) && kind == ErrorKind::TimedOut
    ||| is_buffer_operation(operation) && kind == ErrorKind::InvalidData
}

impl Clone for SessionError {
    /// A copy with the same operation, kind, and detail text.
    fn clone(&self) -> (copy: Self)
        ensures
            copy.spec_operation() == self.spec_operation(),
            copy.spec_kind() == self.spec_kind(),
            copy.spec_detail() == self.spec_detail(),
    {
        proof {
            use_type_invariant(self);
        }
        SessionError { operation: self.operation, kind: self.kind, detail: self.detail.clone() }
    }
}

impl SessionError {
    #[verifier::type_invariant]
    closed spec fn well_labelled(self) -> bool {
        reported_failure(self.operation@, self.kind)
    }
    /// The stable operation label.
    pub closed spec fn spec_operation(self) -> &'static str {
        self.operation
    }

    /// The I/O-compatible failure category.
    pub closed spec fn spec_kind(self) -> ErrorKind {
        self.kind
    }

    /// The diagnostic detail text.
    pub closed spec fn spec_detail(self) -> Seq<char> {
        self.detail@
    }

    /// Returns the stable operation label (`decode`, `encode`, `read`, `write`,
    /// `task`, `idle`, `deadline`, `inbound_buffer`, or `outbound_buffer`).
    pub fn operation(&self) -> (operation: &'static str)
        ensures
            operation == self.spec_operation(),
            reported_failure(operation@, self.spec_kind()),
    {
        proof {
            use_type_invariant(self);
        }
        self.operation
    }

    /// Returns the underlying I/O-compatible error category.
    pub fn kind(&self) -> (kind: ErrorKind)
        ensures
            kind == self.spec_kind(),
            reported_failure(self.spec_operation()@, kind),
    {
        proof {
            use_type_invariant(self);
        }
        self.kind
    }

    /// Returns the diagnostic detail text.
    pub fn detail(&self) -> (detail: &str)
        ensures
            detail@ == self.spec_detail(),
    {
        self.detail.as_str()
    }

    /// Builds a bounded operation failure from an I/O-compatible error's
    /// category and display text.
    pub fn io(operation: &'static str, kind: ErrorKind, detail: String) -> (error: Self)
        requires
            is_io_operation(operation@),
        ensures
            error.spec_operation() == operation,
            error.spec_kind() == kind,
            error.spec_detail() == detail@,
    {
        SessionError { operation, kind, detail }
    }

    /// Builds an error for a panicked or cancelled runtime task.
    pub fn task(detail: String) -> (error: Self)
        ensures
            error.spec_operation() == "task",
            error.spec_kind() == ErrorKind::Other,
            error.spec_detail() == detail@,
    {
        SessionError { operation: "task", kind: ErrorKind::Other, detail }
    }

    /// Builds a stable timeout error for runtime timing termination.
    pub fn timeout(operation: &'static str) -> (error: Self)
        requires
            is_timing_operation(operation@),
        ensures
            error.spec_operation() == operation,
            error.spec_kind() == ErrorKind::TimedOut,
            error.spec_detail() == operation@ + " boundary elapsed"@,
    {
        SessionError { operation, kind: ErrorKind::TimedOut, detail: describe_timeout(operation) }
    }

    /// Builds a stable invalid-data error from one logical buffer limit rejection.
    pub fn buffer(operation: &'static str, failure: BufferLimitError) -> (error: Self)
        requires
            is_buffer_operation(operation@),
        ensures
            error.spec_operation() == operation,
            error.spec_kind() == ErrorKind::InvalidData,
            error.spec_detail() == buffer_limit_text(failure),
    {
        SessionError {
            operation,
            kind: ErrorKind::InvalidData,
            detail: describe_buffer_limit(failure),
        }
    }
}

} // verus!
