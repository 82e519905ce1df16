//! Bearer-credential policy and the per-request credential check.

use portunus::daemon::errors::StatusCode;
use portunus::daemon::auth::{authorize, AuthConfig, AuthError, AuthFailure, AuthInterceptor};

// Disabled authentication admits a request that carries no credential.
#[test]
fn allows_requests_when_authentication_is_disabled() {
    assert!(authorize(&AuthConfig::disabled(), None).is_ok());
}

// Only the exact bearer value is admitted; missing and wrong values are refused alike.
#[test]
fn validates_configured_bearer_credentials() {
    let config = AuthConfig::bearer("secret-token").unwrap();
    assert!(authorize(&config, Some("Bearer secret-token")).is_ok());

    for value in [None, Some("Basic abc"), Some("Bearer wrong")] {
        assert_eq!(authorize(&config, value), Err(AuthFailure));
    }
}

// An empty bearer secret is a configuration error.
#[test]
fn rejects_empty_bearer_configuration() {
    assert_eq!(
        AuthConfig::bearer("").err(),
        Some(AuthError::EmptyBearerToken)
    );
}

// Absent source disables authentication; a present token enables it.
#[test]
fn resolves_optional_authentication_source() {
    assert!(AuthConfig::from_source(None).unwrap() == AuthConfig::disabled());
    assert!(AuthConfig::from_source(Some("token")).unwrap() == AuthConfig::bearer("token").unwrap());
}

// Tokens that are too long or hold invisible characters are refused.
#[test]
fn rejects_oversized_and_non_graphic_tokens() {
    let longest = "a".repeat(4096 - 7);
    assert!(AuthConfig::bearer(&longest).is_ok());
    let too_long = "a".repeat(4096 - 6);
    assert_eq!(
        AuthConfig::bearer(&too_long).err(),
        Some(AuthError::BearerTokenTooLong { limit: 4089 })
    );
    for token in ["with space", "tab\there", "caf\u{e9}"] {
        assert_eq!(
            AuthConfig::bearer(token).err(),
            Some(AuthError::InvalidBearerToken)
        );
    }
}

// The hook applies its owned policy; prefix and case must match exactly.
#[test]
fn interceptor_checks_with_its_owned_policy() {
    let hook = AuthInterceptor::new(AuthConfig::bearer("t0k").unwrap());
    assert!(hook.check(Some("Bearer t0k")).is_ok());
    assert!(hook.check(Some("bearer t0k")).is_err());
    assert!(hook.check(Some("Bearer t0k ")).is_err());
    assert!(hook.check(Some("Bearer t0")).is_err());
    assert!(AuthInterceptor::new(AuthConfig::disabled()).check(Some("anything")).is_ok());
}

// Every authentication rejection carries the unauthenticated status code.
#[test]
fn rejections_are_unauthenticated() {
    assert_eq!(AuthFailure.code(), StatusCode::Unauthenticated);
}
