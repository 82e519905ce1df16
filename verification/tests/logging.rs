//! Logging filter selection and validation.

use portunus::daemon::logging::{LoggingConfig, LoggingError};

// The first non-blank source wins, trimmed; with none the filter is `info`.
#[test]
fn resolves_filter_precedence_and_default() {
    assert_eq!(
        LoggingConfig::from_sources(Some("debug"), Some("warn"))
            .unwrap()
            .filter(),
        "debug"
    );
    assert_eq!(
        LoggingConfig::from_sources(Some(""), Some("warn"))
            .unwrap()
            .filter(),
        "warn"
    );
    assert_eq!(
        LoggingConfig::from_sources(None, None).unwrap().filter(),
        "info"
    );
}

// Levels and targeted directives are kept verbatim.
#[test]
fn accepts_levels_and_targeted_filters() {
    for filter in [
        "trace",
        "debug",
        "info",
        "warn",
        "error",
        "portunus_engine=debug",
    ] {
        assert_eq!(LoggingConfig::new(filter).unwrap().filter(), filter);
    }
}

// A malformed directive is refused with the operator's text retained.
#[test]
fn rejects_invalid_filter_directives() {
    assert!(matches!(
        LoggingConfig::new("portunus_engine[broken=debug"),
        Err(LoggingError::InvalidFilter { filter, .. }) if filter == "portunus_engine[broken=debug"
    ));
}

// Blank sources are skipped and surrounding whitespace is trimmed away.
#[test]
fn trims_sources_and_skips_blank_ones() {
    assert_eq!(
        LoggingConfig::from_sources(Some("   "), Some("  error \n"))
            .unwrap()
            .filter(),
        "error"
    );
    assert_eq!(
        LoggingConfig::from_sources(None, Some("\t")).unwrap().filter(),
        "info"
    );
    assert!(matches!(
        LoggingConfig::from_sources(Some(" a[b "), Some("warn")),
        Err(LoggingError::InvalidFilter { filter, .. }) if filter == "a[b"
    ));
}

// Directives the parser cannot take apart safely are refused, not parsed.
#[test]
fn refuses_whitespace_led_directives_with_non_ascii_text() {
    assert!(matches!(
        LoggingConfig::new("info, é=debug"),
        Err(LoggingError::InvalidFilter { filter, reason })
            if filter == "info, é=debug"
                && reason == "a directive that starts with whitespace must be ASCII"
    ));
    assert!(matches!(
        LoggingConfig::from_sources(Some(" warn, \u{e9}x=info"), None),
        Err(LoggingError::InvalidFilter { .. })
    ));
    assert_eq!(LoggingConfig::new("info,é=debug").unwrap().filter(), "info,é=debug");
    assert_eq!(LoggingConfig::new("info, warn").unwrap().filter(), "info, warn");
    assert_eq!(LoggingConfig::new("debug, café").unwrap().filter(), "debug, café");
}

// Sources are trimmed of every Unicode whitespace character, as `str::trim` does.
#[test]
fn trims_unicode_whitespace_from_sources() {
    assert_eq!(
        LoggingConfig::from_sources(Some("\u{3000}debug\u{a0}\u{2009}"), None)
            .unwrap()
            .filter(),
        "debug"
    );
    assert_eq!(
        LoggingConfig::from_sources(Some("\u{85}\u{2028}"), Some("\u{b}error"))
            .unwrap()
            .filter(),
        "error"
    );
}
