//! Bounded telemetry export configuration.

use portunus::daemon::telemetry::{
    signal_endpoint, AdmissionOutcome, TelemetryConfig, TelemetryError,
};
use portunus::time::Span;

// No endpoint means disabled; a full source set enables bounded export.
#[test]
fn resolves_disabled_and_enabled_telemetry() {
    assert!(
        TelemetryConfig::from_sources(None, None, None, None).unwrap()
            == TelemetryConfig::disabled()
    );
    let config = TelemetryConfig::from_sources(
        Some("http://127.0.0.1:4318"),
        Some("8"),
        Some("4"),
        Some("250"),
    )
    .unwrap();
    assert!(config.is_enabled());
    assert_eq!(config.max_trace_queue(), 8);
    assert_eq!(config.max_export_batch(), 4);
    assert_eq!(config.metric_interval(), Span::from_millis(250));
}

// Malformed endpoints and zero or inconsistent limits are refused in order.
#[test]
fn rejects_malformed_and_unbounded_telemetry() {
    assert!(
        TelemetryConfig::otlp("collector", 1, 1, Span::from_millis(1)).err()
            == Some(TelemetryError::InvalidEndpoint)
    );
    assert!(
        TelemetryConfig::otlp("http://localhost:4318", 0, 1, Span::from_millis(1)).err()
            == Some(TelemetryError::ZeroTraceQueue)
    );
    assert!(
        TelemetryConfig::otlp("http://localhost:4318", 1, 0, Span::from_millis(1)).err()
            == Some(TelemetryError::ZeroExportBatch)
    );
    assert!(
        TelemetryConfig::otlp("http://localhost:4318", 1, 2, Span::from_millis(1)).err()
            == Some(TelemetryError::ExportBatchExceedsQueue { batch: 2, queue: 1 })
    );
    assert!(
        TelemetryConfig::otlp("http://localhost:4318", 1, 1, Span::zero()).err()
            == Some(TelemetryError::ZeroMetricInterval)
    );
    assert!(TelemetryConfig::otlp("https://localhost:4318", 1, 1, Span::from_millis(1)).is_ok());
}

// Options without an endpoint, and malformed decimals, are refused.
#[test]
fn rejects_inconsistent_telemetry_sources() {
    assert!(
        TelemetryConfig::from_sources(None, Some("8"), None, None).err()
            == Some(TelemetryError::OptionsWithoutEndpoint)
    );
    assert!(
        TelemetryConfig::from_sources(Some("http://localhost:4318"), Some("bad"), None, None).err()
            == Some(TelemetryError::InvalidTraceQueue)
    );
}

// Absent options take the documented defaults; the endpoint is kept verbatim.
#[test]
fn applies_defaults_for_absent_options() {
    let config = TelemetryConfig::from_sources(Some("https://otel:4318/v1"), None, None, None)
        .unwrap();
    assert_eq!(config.max_trace_queue(), 2048);
    assert_eq!(config.max_export_batch(), 512);
    assert_eq!(config.metric_interval(), Span::from_millis(10_000));
    assert_eq!(config.endpoint(), Some("https://otel:4318/v1"));
    let disabled = TelemetryConfig::disabled();
    assert!(!disabled.is_enabled());
    assert_eq!(disabled.endpoint(), None);
}

// Endpoint shape: scheme with a non-empty rest, no whitespace, bounded length.
#[test]
fn validates_endpoint_shape_and_length() {
    for endpoint in ["http://", "https://", "ftp://host", "http://a b", "HTTP://host"] {
        assert!(
            TelemetryConfig::otlp(endpoint, 1, 1, Span::from_millis(1)).err()
                == Some(TelemetryError::InvalidEndpoint),
            "{endpoint:?}"
        );
    }
    let long = format!("http://{}", "h".repeat(2048 - 7));
    assert!(TelemetryConfig::otlp(&long, 1, 1, Span::from_millis(1)).is_ok());
    let too_long = format!("http://{}", "h".repeat(2048 - 6));
    assert!(
        TelemetryConfig::otlp(&too_long, 1, 1, Span::from_millis(1)).err()
            == Some(TelemetryError::EndpointTooLong { limit: 2048 })
    );
    assert!(
        TelemetryConfig::from_sources(Some("http://h"), None, Some("x"), None).err()
            == Some(TelemetryError::InvalidExportBatch)
    );
    assert!(
        TelemetryConfig::from_sources(Some("http://h"), None, None, Some("-1")).err()
            == Some(TelemetryError::InvalidMetricInterval)
    );
}

// Admission outcomes carry stable low-cardinality labels.
#[test]
fn labels_admission_outcomes() {
    assert_eq!(AdmissionOutcome::Accepted.label(), "accepted");
    assert_eq!(AdmissionOutcome::Unauthenticated.label(), "unauthenticated");
    assert_eq!(AdmissionOutcome::Overloaded.label(), "overloaded");
}

// Each signal gets its own path after the base endpoint's trailing slashes.
#[test]
fn routes_signals_to_their_own_paths() {
    assert_eq!(
        signal_endpoint("http://collector:4318", "/v1/traces"),
        "http://collector:4318/v1/traces"
    );
    assert_eq!(
        signal_endpoint("http://collector:4318///", "/v1/metrics"),
        "http://collector:4318/v1/metrics"
    );
    assert_eq!(signal_endpoint("https://é/x/", "/v1/traces"), "https://é/x/v1/traces");
}

// Control bytes are refused in endpoints like whitespace.
#[test]
fn rejects_control_bytes_in_endpoints() {
    for endpoint in ["http://collector\u{1}example", "http://host\u{7f}", "https://a\u{0}b"] {
        assert!(
            TelemetryConfig::otlp(endpoint, 1, 1, Span::from_millis(1)).err()
                == Some(TelemetryError::InvalidEndpoint),
            "{endpoint:?}"
        );
    }
}
