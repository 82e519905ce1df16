//! Validated bounded OpenTelemetry export configuration and admission outcomes.
//!
//! Export is explicitly disabled or targets one OTLP/HTTP endpoint no longer than
//! 2,048 bytes. Trace queue and batch counts are nonzero, batch never exceeds queue,
//! and metric interval is a positive number of milliseconds.
//!
//! This module owns configuration only. Installing providers, constructing
//! exporters, reading environment variables, and emitting instruments belong to
//! the daemon's composition root.

use crate::daemon::text::{parse_decimal, parse_unsigned};
use crate::time::{Span, NANOS_PER_MILLI};
use vstd::prelude::*;
use vstd::string::StringSliceAdditionalSpecFns;

verus! {

/// Trace spans queued when no queue bound is configured.
pub const DEFAULT_TRACE_QUEUE: usize = 2048;

/// Spans per export batch when no batch bound is configured.
pub const DEFAULT_EXPORT_BATCH: usize = 512;

/// Metric export interval, in milliseconds, when none is configured.
pub const DEFAULT_METRIC_INTERVAL_MS: u64 = 10000;

/// Longest accepted endpoint in bytes.
pub const MAX_ENDPOINT_BYTES: usize = 2048;

/// Stable telemetry configuration failures.
#[derive(Clone, Copy, Debug, Eq, PartialEq, Structural)]
pub enum TelemetryError {
    InvalidEndpoint,
    EndpointTooLong { limit: usize },
    InvalidTraceQueue,
    InvalidExportBatch,
    InvalidMetricInterval,
    OptionsWithoutEndpoint,
    ZeroTraceQueue,
    ZeroExportBatch,
    ExportBatchExceedsQueue { batch: usize, queue: usize },
    ZeroMetricInterval,
}

/// The bytes of `http://`.
pub open spec fn http_scheme() -> Seq<u8> {
    seq![104, 116, 116, 112, 58, 47, 47]
}

/// The bytes of `https://`.
pub open spec fn https_scheme() -> Seq<u8> {
    seq![104, 116, 116, 112, 115, 58, 47, 47]
}

/// Whether a byte is ASCII whitespace: space, tab, line feed, form feed, or
/// carriage return.
pub open spec fn is_ascii_whitespace(byte: u8) -> bool {
    byte == 32 || byte == 9 || byte == 10 || byte == 12 || byte == 13
}

/// Whether a byte is an ASCII control byte (`0x00`-`0x1F` or `0x7F`).
pub open spec fn is_ascii_control(byte: u8) -> bool {
    byte < 32 || byte == 127
}

/// Whether an endpoint may not contain `byte`: whitespace and control bytes.
pub open spec fn is_forbidden_endpoint_byte(byte: u8) -> bool {
    is_ascii_whitespace(byte) || is_ascii_control(byte)
}

/// Whether the endpoint is `http://` or `https://` followed by at least one byte.
/// An endpoint that is exactly `http://` is rejected without trying `https://`.
pub open spec fn has_scheme_and_authority(bytes: Seq<u8>) -> bool {
    if bytes.len() >= 7 && bytes.take(7) == http_scheme() {
        bytes.len() > 7
    } else {
        bytes.len() > 8 && bytes.take(8) == https_scheme()
    }
}

/// The verdict on an endpoint: too long, malformed, or acceptable.
pub open spec fn endpoint_verdict(bytes: Seq<u8>) -> Result<(), TelemetryError> {
    if bytes.len() > MAX_ENDPOINT_BYTES {
        Err(TelemetryError::EndpointTooLong { limit: MAX_ENDPOINT_BYTES })
    } else if !has_scheme_and_authority(bytes) || exists|i: int|
        0 <= i < bytes.len() && is_forbidden_endpoint_byte(#[trigger] bytes[i]) {
        Err(TelemetryError::InvalidEndpoint)
    } else {
        Ok(())
    }
}

/// Whether `bytes` begins with `prefix`.
fn starts_with(bytes: &[u8], prefix: &[u8]) -> (starts: bool)
    ensures
        starts == (bytes@.len() >= prefix@.len() && bytes@.take(prefix@.len() as int) == prefix@),
{
    if bytes.len() < prefix.len() {
        return false;
    }
    let mut i: usize = 0;
    while i < prefix.len()
        invariant
            i <= prefix@.len() <= bytes@.len(),
            forall|k: int| 0 <= k < i ==> bytes@[k] == prefix@[k],
        decreases prefix@.len() - i,
    {
        if bytes[i] != prefix[i] {
            proof {
                assert(bytes@.take(prefix@.len() as int)[i as int] != prefix@[i as int]);
            }
            return false;
        }
        i = i + 1;
    }
    assert(bytes@.take(prefix@.len() as int) =~= prefix@);
    true
}

/// Validates a bounded OTLP/HTTP endpoint.
fn validate_endpoint(endpoint: &str) -> (verdict: Result<(), TelemetryError>)
    ensures
        verdict == endpoint_verdict(endpoint.spec_bytes()),
{
    let bytes = endpoint.as_bytes();
    if bytes.len() > MAX_ENDPOINT_BYTES {
        return Err(TelemetryError::EndpointTooLong { limit: MAX_ENDPOINT_BYTES });
    }
    let http: [u8; 7] = [104, 116, 116, 112, 58, 47, 47];
    let https: [u8; 8] = [104, 116, 116, 112, 115, 58, 47, 47];
    assert(http@ =~= http_scheme());
    assert(https@ =~= https_scheme());
    let authority = if starts_with(bytes, http.as_slice()) {
        bytes.len() > 7
    } else {
        starts_with(bytes, https.as_slice()) && bytes.len() > 8
    };
    if !authority {
        return Err(TelemetryError::InvalidEndpoint);
    }
    let mut i: usize = 0;
    while i < bytes.len()
        invariant
            i <= bytes@.len(),
            bytes@ == endpoint.spec_bytes(),
            bytes@.len() <= MAX_ENDPOINT_BYTES,
            has_scheme_and_authority(bytes@),
            forall|k: int| 0 <= k < i ==> !is_forbidden_endpoint_byte(#[trigger] bytes@[k]),
        decreases bytes@.len() - i,
    {
        let byte = bytes[i];
        if byte <= 32 || byte == 127 {
            assert(is_forbidden_endpoint_byte(bytes@[i as int]));
            return Err(TelemetryError::InvalidEndpoint);
        }
        i = i + 1;
    }
    Ok(())
}

/// Mathematical value of a [`TelemetryConfig`]; the interval is in nanoseconds.
pub struct TelemetryPolicy {
    pub endpoint: Option<Seq<char>>,
    pub max_trace_queue: nat,
    pub max_export_batch: nat,
    pub metric_interval: nat,
}

/// The disabled policy with its default bounds.
pub open spec fn disabled_policy() -> TelemetryPolicy {
    TelemetryPolicy {
        endpoint: None,
        max_trace_queue: DEFAULT_TRACE_QUEUE as nat,
        max_export_batch: DEFAULT_EXPORT_BATCH as nat,
        metric_interval: (DEFAULT_METRIC_INTERVAL_MS * NANOS_PER_MILLI) as nat,
    }
}

/// The outcome of validating an enabled export policy; checks run in the
/// order endpoint, zero queue, zero batch, batch above queue, zero interval.
pub open spec fn otlp_outcome(endpoint: &str, queue: nat, batch: nat, interval: nat) -> Result<
    TelemetryPolicy,
    TelemetryError,
> {
    if endpoint_verdict(endpoint.spec_bytes()) is Err {
        Err(endpoint_verdict(endpoint.spec_bytes())->Err_0)
    } else if queue == 0 {
        Err(TelemetryError::ZeroTraceQueue)
    } else if batch == 0 {
        Err(TelemetryError::ZeroExportBatch)
    } else if batch > queue {
        Err(TelemetryError::ExportBatchExceedsQueue { batch: batch as usize, queue: queue as usize })
    } else if interval == 0 {
        Err(TelemetryError::ZeroMetricInterval)
    } else {
        Ok(
            TelemetryPolicy {
                endpoint: Some(endpoint@),
                max_trace_queue: queue,
                max_export_batch: batch,
                metric_interval: interval,
            },
        )
    }
}

/// The value an optional decimal source selects: its parse, or the default
/// when absent; `None` when present but not a decimal within `max`.
pub open spec fn sourced(source: Option<&str>, default: nat, max: nat) -> Option<nat> {
    match source {
        None => Some(default),
        Some(text) => parse_unsigned(text.spec_bytes(), max),
    }
}

/// The outcome of resolving telemetry configuration sources.
pub open spec fn sources_outcome(
    endpoint: Option<&str>,
    queue: Option<&str>,
    batch: Option<&str>,
    interval_ms: Option<&str>,
) -> Result<TelemetryPolicy, TelemetryError> {
    match endpoint {
        None => if queue is Some || batch is Some || interval_ms is Some {
            Err(TelemetryError::OptionsWithoutEndpoint)
        } else {
            Ok(disabled_policy())
        },
        Some(endpoint) => {
            let q = sourced(queue, DEFAULT_TRACE_QUEUE as nat, usize::MAX as nat);
            let b = sourced(batch, DEFAULT_EXPORT_BATCH as nat, usize::MAX as nat);
            let i = sourced(interval_ms, DEFAULT_METRIC_INTERVAL_MS as nat, u64::MAX as nat);
            if q is None {
                Err(TelemetryError::InvalidTraceQueue)
            } else if b is None {
                Err(TelemetryError::InvalidExportBatch)
            } else if i is None {
                Err(TelemetryError::InvalidMetricInterval)
            } else {
                otlp_outcome(endpoint, q->0, b->0, (i->0 * NANOS_PER_MILLI) as nat)
            }
        },
    }
}

/// Validated bounded telemetry export configuration.
#[derive(Eq, PartialEq)]
pub struct TelemetryConfig {
    endpoint: Option<String>,
    max_trace_queue: usize,
    max_export_batch: usize,
    metric_interval: Span,
}

/// Whether `config` is what an outcome describes.
pub open spec fn config_matches(
    config: Result<TelemetryConfig, TelemetryError>,
    outcome: Result<TelemetryPolicy, TelemetryError>,
) -> bool {
    match outcome {
        Ok(policy) => config matches Ok(c) && c@ == policy,
        Err(error) => config == Err::<TelemetryConfig, TelemetryError>(error),
    }
}

impl View for TelemetryConfig {
    type V = TelemetryPolicy;

    closed spec fn view(&self) -> TelemetryPolicy {
        TelemetryPolicy {
            endpoint: match self.endpoint {
                Some(e) => Some(e@),
                None => None,
            },
            max_trace_queue: self.max_trace_queue as nat,
            max_export_batch: self.max_export_batch as nat,
            metric_interval: self.metric_interval@,
        }
    }
}

impl Clone for TelemetryConfig {
    /// Copies the configuration: endpoint text and bounds alike.
    fn clone(&self) -> (copy: Self)
        ensures
            copy@ == self@,
    {
        proof {
            use_type_invariant(self);
        }
        let endpoint = match &self.endpoint {
            Some(text) => Some(text.clone()),
            None => None,
        };
        TelemetryConfig {
            endpoint,
            max_trace_queue: self.max_trace_queue,
            max_export_batch: self.max_export_batch,
            metric_interval: self.metric_interval,
        }
    }
}

/// Parses an optional decimal source, using `default` when absent.
fn parse_source(source: Option<&str>, default: u64, max: u64) -> (value: Option<u64>)
    ensures
        sourced(source, default as nat, max as nat) matches Some(v) ==> value == Some(v as u64),
        sourced(source, default as nat, max as nat) is None ==> value is None,
{
    match source {
        None => Some(default),
        Some(text) => parse_decimal(text, max),
    }
}

impl TelemetryConfig {
    #[verifier::type_invariant]
    closed spec fn bounds_valid(self) -> bool {
        &&& 0 < self.max_export_batch <= self.max_trace_queue
        &&& self.metric_interval@ > 0
    }

    /// Explicit disabled telemetry with the default bounds.
    pub fn disabled() -> (config: Self)
        ensures
            config@ == disabled_policy(),
    {
        TelemetryConfig {
            endpoint: None,
            max_trace_queue: DEFAULT_TRACE_QUEUE,
            max_export_batch: DEFAULT_EXPORT_BATCH,
            metric_interval: Span::from_millis(DEFAULT_METRIC_INTERVAL_MS),
        }
    }

    /// Validates an enabled OTLP/HTTP export policy.
    pub fn otlp(endpoint: &str, max_trace_queue: usize, max_export_batch: usize, metric_interval: Span) -> (config:
        Result<Self, TelemetryError>)
        ensures
            config_matches(
                config,
                otlp_outcome(
                    endpoint,
                    max_trace_queue as nat,
                    max_export_batch as nat,
                    metric_interval@,
                ),
            ),
    {
        match validate_endpoint(endpoint) {
            Err(error) => {
                return Err(error);
            },
            Ok(()) => {},
        }
        if max_trace_queue == 0 {
            return Err(TelemetryError::ZeroTraceQueue);
        }
        if max_export_batch == 0 {
            return Err(TelemetryError::ZeroExportBatch);
        }
        if max_export_batch > max_trace_queue {
            return Err(
                TelemetryError::ExportBatchExceedsQueue {
                    batch: max_export_batch,
                    queue: max_trace_queue,
                },
            );
        }
        if metric_interval.is_zero() {
            return Err(TelemetryError::ZeroMetricInterval);
        }
        Ok(
            TelemetryConfig {
                endpoint: Some(endpoint.to_owned()),
                max_trace_queue,
                max_export_batch,
                metric_interval,
            },
        )
    }

    /// Resolves optional endpoint, queue, batch, and millisecond-interval
    /// sources: bounds without an endpoint are rejected, absent bounds take
    /// their defaults, and each present bound must be an unsigned decimal.
    pub fn from_sources(
        endpoint: Option<&str>,
        max_trace_queue: Option<&str>,
        max_export_batch: Option<&str>,
        metric_interval_ms: Option<&str>,
    ) -> (config: Result<Self, TelemetryError>)
        ensures
            config_matches(
                config,
                sources_outcome(endpoint, max_trace_queue, max_export_batch, metric_interval_ms),
            ),
    {
        let endpoint = match endpoint {
            None => {
                if max_trace_queue.is_some() || max_export_batch.is_some()
                    || metric_interval_ms.is_some() {
                    return Err(TelemetryError::OptionsWithoutEndpoint);
                }
                return Ok(Self::disabled());
            },
            Some(endpoint) => endpoint,
        };
        let queue = match parse_source(max_trace_queue, DEFAULT_TRACE_QUEUE as u64, usize::MAX as u64) {
            None => {
                return Err(TelemetryError::InvalidTraceQueue);
            },
            Some(queue) => queue as usize,
        };
        let batch = match parse_source(max_export_batch, DEFAULT_EXPORT_BATCH as u64, usize::MAX as u64) {
            None => {
                return Err(TelemetryError::InvalidExportBatch);
            },
            Some(batch) => batch as usize,
        };
        let interval = match parse_source(metric_interval_ms, DEFAULT_METRIC_INTERVAL_MS, u64::MAX) {
            None => {
                return Err(TelemetryError::InvalidMetricInterval);
            },
            Some(interval) => interval,
        };
        Self::otlp(endpoint, queue, batch, Span::from_millis(interval))
    }

    /// Reports whether exporters should be constructed: exactly when an
    /// endpoint is configured.
    pub fn is_enabled(&self) -> (enabled: bool)
        ensures
            enabled == self@.endpoint is Some,
    {
        self.endpoint.is_some()
    }

    /// Returns the inclusive maximum queued spans.
    pub fn max_trace_queue(&self) -> (queue: usize)
        ensures
            queue == self@.max_trace_queue,
            queue > 0,
    {
        proof {
            use_type_invariant(self);
        }
        self.max_trace_queue
    }

    /// Returns the inclusive maximum spans per export batch.
    pub fn max_export_batch(&self) -> (batch: usize)
        ensures
            batch == self@.max_export_batch,
            0 < batch <= self@.max_trace_queue,
    {
        proof {
            use_type_invariant(self);
        }
        self.max_export_batch
    }

    /// Returns the positive periodic metric export interval.
    pub fn metric_interval(&self) -> (interval: Span)
        ensures
            interval@ == self@.metric_interval,
            interval@ > 0,
    {
        proof {
            use_type_invariant(self);
        }
        self.metric_interval
    }

    /// Returns the configured endpoint, or `None` when export is disabled.
    pub fn endpoint(&self) -> (endpoint: Option<&str>)
        ensures
            endpoint matches Some(e) ==> self@.endpoint == Some(e@),
            endpoint is None ==> self@.endpoint is None,
    {
        match &self.endpoint {
            Some(endpoint) => Some(endpoint.as_str()),
            None => None,
        }
    }
}

/// A control-plane request's admission outcome.
#[derive(Clone, Copy, Debug, Eq, PartialEq, Structural)]
pub enum AdmissionOutcome {
    Accepted,
    Unauthenticated,
    Overloaded,
}

impl AdmissionOutcome {
    /// The stable low-cardinality label of an outcome.
    pub fn label(self) -> (label: &'static str)
        ensures
            label == match self {
                AdmissionOutcome::Accepted => "accepted",
                AdmissionOutcome::Unauthenticated => "unauthenticated",
                AdmissionOutcome::Overloaded => "overloaded",
            },
    {
        match self {
            AdmissionOutcome::Accepted => "accepted",
            AdmissionOutcome::Unauthenticated => "unauthenticated",
            AdmissionOutcome::Overloaded => "overloaded",
        }
    }
}

/// `text` without its trailing `/` characters.
pub open spec fn without_trailing_slashes(text: Seq<char>) -> Seq<char>
    decreases text.len(),
{
    if text.len() > 0 && text.last() == '/' {
        without_trailing_slashes(text.drop_last())
    } else {
        text
    }
}

/// The per-signal OTLP/HTTP endpoint: the base endpoint with its trailing
/// slashes removed, followed by the signal's absolute path, so that traces and
/// metrics are routed separately rather than both sent to the base URI.
pub fn signal_endpoint(base: &str, path: &str) -> (endpoint: String)
    ensures
        endpoint@ == without_trailing_slashes(base@) + path@,
{
    let mut end = base.unicode_len();
    assert(base@.subrange(0, end as int) =~= base@);
    while end > 0 && base.get_char(end - 1) == '/'
        invariant
            end <= base@.len(),
            without_trailing_slashes(base@.subrange(0, end as int)) == without_trailing_slashes(
                base@,
            ),
        decreases end,
    {
        assert(base@.subrange(0, end as int).drop_last() =~= base@.subrange(0, end - 1));
        end = end - 1;
    }
    proof {
        if end > 0 {
            assert(base@.subrange(0, end as int).last() == base@[end - 1]);
        }
    }
    let mut endpoint = base.substring_char(0, end).to_owned();
    endpoint.append(path);
    endpoint
}

} // verus!

verus! {

/// The endpoint schemes are the ASCII texts `http://` and `https://`, one byte
/// per character, and the bytes an endpoint may not hold are exactly those up
/// to and including the space (`0x20`) and the delete byte (`0x7F`).
pub proof fn lemma_endpoint_schemes_and_forbidden_bytes(byte: u8)
    ensures
        http_scheme().len() == "http://"@.len(),
        forall|i: int|
            0 <= i < 7 ==> http_scheme()[i] as u32 == (#[trigger] "http://"@[i]) as u32,
        https_scheme().len() == "https://"@.len(),
        forall|i: int|
            0 <= i < 8 ==> https_scheme()[i] as u32 == (#[trigger] "https://"@[i]) as u32,
        is_forbidden_endpoint_byte(byte) <==> (byte <= 0x20 || byte == 0x7F),
{
    reveal_strlit("http://");
    reveal_strlit("https://");
    let http = "http://"@;
    let https = "https://"@;
    assert(http =~= seq!['h', 't', 't', 'p', ':', '/', '/']);
    assert(https =~= seq!['h', 't', 't', 'p', 's', ':', '/', '/']);
    assert forall|i: int| 0 <= i < 7 implies http_scheme()[i] as u32 == (#[trigger] http[i])
        as u32 by {}
    assert forall|i: int| 0 <= i < 8 implies https_scheme()[i] as u32 == (#[trigger] https[i])
        as u32 by {}
}

} // verus!
