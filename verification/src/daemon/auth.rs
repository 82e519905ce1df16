//! Validated control-plane authentication policy and credential check.
//!
//! Authentication is explicitly disabled or uses one prevalidated bearer value no
//! longer than 4,096 bytes. Rejections do not distinguish missing, malformed, or
//! incorrect credentials, and the comparison does the same work for every
//! supplied value of a given length.
//!
//! This module validates the credential only. Extracting request metadata,
//! provisioning secrets, authorizing methods, and TLS belong to the runtime.

use crate::daemon::errors::StatusCode;
use vstd::prelude::*;
use vstd::string::StringSliceAdditionalSpecFns;

verus! {

broadcast use vstd::utf8::encode_utf8_decode_utf8;

/// Largest accepted `authorization` metadata value in bytes.
pub const MAX_BEARER_BYTES: usize = 4096;

/// Byte length of the `Bearer ` scheme prefix.
pub const BEARER_PREFIX_BYTES: usize = 7;

/// Validated authentication policy: disabled, or one expected metadata value.
#[derive(Clone, Eq, PartialEq)]
pub struct AuthConfig {
    expected: Option<String>,
}

/// Stable authentication configuration failures.
#[derive(Clone, Copy, Debug, Eq, PartialEq, Structural)]
pub enum AuthError {
    EmptyBearerToken,
    BearerTokenTooLong { limit: usize },
    InvalidBearerToken,
}

/// A credential-independent authentication rejection.
#[derive(Clone, Copy, Debug, Eq, PartialEq, Structural)]
pub struct AuthFailure;

impl AuthFailure {
    /// The status code every authentication rejection is answered with.
    pub fn code(self) -> (code: StatusCode)
        ensures
            code == StatusCode::Unauthenticated,
    {
        StatusCode::Unauthenticated
    }
}

/// Whether a byte is a visible ASCII character (`!` through `~`).
pub open spec fn is_ascii_graphic(byte: u8) -> bool {
    33 <= byte <= 126
}

/// The `authorization` value that a bearer `token` is expected to arrive as.
pub open spec fn bearer_value(token: Seq<char>) -> Seq<char> {
    "Bearer "@ + token
}

impl AuthConfig {
    /// The expected `authorization` value, or `None` when authentication is disabled.
    pub closed spec fn spec_expected(self) -> Option<Seq<char>> {
        match self.expected {
            Some(value) => Some(value@),
            None => None,
        }
    }

    /// Explicit pass-through policy for trusted or local deployments.
    pub fn disabled() -> (config: Self)
        ensures
            config.spec_expected() is None,
    {
        AuthConfig { expected: None }
    }

    /// Resolves an optional token source: absence disables authentication and
    /// presence is validated exactly as [`AuthConfig::bearer`] does.
    pub fn from_source(token: Option<&str>) -> (config: Result<Self, AuthError>)
        ensures
            token is None ==> (config matches Ok(c) && c.spec_expected() is None),
            token matches Some(t) ==> policy_matches(config, bearer_outcome(t)),
    {
        match token {
            None => Ok(Self::disabled()),
            Some(t) => Self::bearer(t),
        }
    }

    /// Validates a bearer token: non-empty, at most 4,089 bytes so that the
    /// complete `Bearer <token>` value fits in 4,096 bytes, and only visible
    /// ASCII bytes; these are checked in that order.
    pub fn bearer(token: &str) -> (config: Result<Self, AuthError>)
        ensures
            policy_matches(config, bearer_outcome(token)),
    {
        if token.is_empty() {
            return Err(AuthError::EmptyBearerToken);
        }
        let bytes = token.as_bytes();
        if bytes.len() > MAX_BEARER_BYTES - BEARER_PREFIX_BYTES {
            return Err(
                AuthError::BearerTokenTooLong { limit: MAX_BEARER_BYTES - BEARER_PREFIX_BYTES },
            );
        }
        let mut i: usize = 0;
        while i < bytes.len()
            invariant
                i <= bytes@.len(),
                bytes@ == token.spec_bytes(),
                token@.len() != 0,
                bytes@.len() <= MAX_BEARER_BYTES - BEARER_PREFIX_BYTES,
                forall|k: int| 0 <= k < i ==> is_ascii_graphic(#[trigger] bytes@[k]),
            decreases bytes@.len() - i,
        {
            if bytes[i] < 33 || bytes[i] > 126 {
                assert(!is_ascii_graphic(token.spec_bytes()[i as int]));
                return Err(AuthError::InvalidBearerToken);
            }
            i = i + 1;
        }
        let mut expected = "Bearer ".to_owned();
        expected.append(token);
        Ok(AuthConfig { expected: Some(expected) })
    }
}

/// The `authorization` value [`AuthConfig::bearer`] expects for `token`, or
/// the first failed check.
pub open spec fn bearer_outcome(token: &str) -> Result<Seq<char>, AuthError> {
    if token@.len() == 0 {
        Err(AuthError::EmptyBearerToken)
    } else if token.spec_bytes().len() > MAX_BEARER_BYTES - BEARER_PREFIX_BYTES {
        Err(AuthError::BearerTokenTooLong { limit: (MAX_BEARER_BYTES - BEARER_PREFIX_BYTES) as usize })
    } else if exists|k: int|
        0 <= k < token.spec_bytes().len() && !is_ascii_graphic(#[trigger] token.spec_bytes()[k]) {
        Err(AuthError::InvalidBearerToken)
    } else {
        Ok(bearer_value(token@))
    }
}

/// Whether `config` is what validating a token with `outcome` yields.
pub open spec fn policy_matches(
    config: Result<AuthConfig, AuthError>,
    outcome: Result<Seq<char>, AuthError>,
) -> bool {
    match outcome {
        Ok(value) => config matches Ok(c) && c.spec_expected() == Some(value),
        Err(error) => config == Err::<AuthConfig, AuthError>(error),
    }
}

} // verus!

verus! {

/// Compares two byte strings for equality without returning early on the
/// first difference: the length difference and every byte difference (the
/// shorter side padded with zeros) are folded into one accumulator.
fn constant_time_eq(expected: &[u8], supplied: &[u8]) -> (equal: bool)
    ensures
        equal == (expected@ == supplied@),
{
    let expected_len = expected.len();
    let supplied_len = supplied.len();
    let mut difference: usize = expected_len ^ supplied_len;
    proof {
        assert((expected_len ^ supplied_len) == 0usize <==> expected_len == supplied_len)
            by (bit_vector);
    }
    let mut i: usize = 0;
    while i < expected_len
        invariant
            i <= expected_len,
            expected_len == expected@.len(),
            supplied_len == supplied@.len(),
            difference == 0 <==> (expected_len == supplied_len && forall|k: int|
                0 <= k < i ==> expected@[k] == #[trigger] padded(supplied@, k)),
        decreases expected_len - i,
    {
        let other: u8 = if i < supplied_len {
            supplied[i]
        } else {
            0
        };
        let byte = expected[i];
        let delta = (byte ^ other) as usize;
        proof {
            assert(delta == 0usize <==> byte == other) by (bit_vector)
                requires
                    delta == (byte ^ other) as usize,
            ;
            assert((difference | delta) == 0usize <==> (difference == 0usize && delta == 0usize))
                by (bit_vector);
            assert(other == padded(supplied@, i as int));
        }
        difference = difference | delta;
        i = i + 1;
    }
    proof {
        if difference == 0 {
            assert forall|k: int| 0 <= k < expected@.len() implies expected@[k] == supplied@[k] by {
                assert(expected@[k] == padded(supplied@, k));
            }
            assert(expected@ =~= supplied@);
        }
        if expected@ == supplied@ {
            assert forall|k: int| 0 <= k < expected_len implies expected@[k] == #[trigger] padded(
                supplied@,
                k,
            ) by {}
        }
    }
    difference == 0
}

/// The byte at `index`, or zero beyond the end.
pub open spec fn padded(bytes: Seq<u8>, index: int) -> u8 {
    if index < bytes.len() {
        bytes[index]
    } else {
        0
    }
}

/// The `authorization` value a request carries: its text, or empty when absent
/// or not representable as text.
pub open spec fn supplied_value(supplied: Option<&str>) -> Seq<char> {
    match supplied {
        Some(text) => text@,
        None => Seq::<char>::empty(),
    }
}

/// Checks one request's `authorization` metadata value against the policy.
///
/// Disabled authentication admits every request. Otherwise the request is
/// admitted exactly when its value equals the expected `Bearer <token>`; an
/// absent value is compared as empty, so it is rejected like a wrong one.
pub fn authorize(config: &AuthConfig, supplied: Option<&str>) -> (result: Result<
    (),
    AuthFailure,
>)
    ensures
        config.spec_expected() is None ==> result is Ok,
        config.spec_expected() matches Some(expected) ==> (result is Ok <==> supplied_value(
            supplied,
        ) == expected),
        result is Err ==> result == Err::<(), AuthFailure>(AuthFailure),
{
    match &config.expected {
        None => Ok(()),
        Some(expected) => {
            let text: &str = match supplied {
                Some(text) => text,
                None => "",
            };
            proof {
                reveal_strlit("");
            }
            let equal = constant_time_eq(expected.as_str().as_bytes(), text.as_bytes());
            proof {
                if equal {
                    assert(expected@ == text@) by {
                        assert(vstd::utf8::decode_utf8(vstd::utf8::encode_utf8(expected@))
                            == expected@);
                        assert(vstd::utf8::decode_utf8(vstd::utf8::encode_utf8(text@)) == text@);
                    }
                }
            }
            if equal {
                Ok(())
            } else {
                Err(AuthFailure)
            }
        },
    }
}

/// Request hook state: the validated daemon authentication policy.
#[derive(Clone)]
pub struct AuthInterceptor {
    config: AuthConfig,
}

impl AuthInterceptor {
    /// The policy this hook enforces.
    pub closed spec fn spec_config(self) -> AuthConfig {
        self.config
    }

    /// Creates a hook that owns no external secret source.
    pub fn new(config: AuthConfig) -> (interceptor: Self)
        ensures
            interceptor.spec_config() == config,
    {
        AuthInterceptor { config }
    }

    /// Checks one request's `authorization` value against the owned policy.
    pub fn check(&self, supplied: Option<&str>) -> (result: Result<(), AuthFailure>)
        ensures
            self.spec_config().spec_expected() is None ==> result is Ok,
            self.spec_config().spec_expected() matches Some(expected) ==> (result is Ok
                <==> supplied_value(supplied) == expected),
    {
        authorize(&self.config, supplied)
    }
}

/// A policy validated from a token admits a request exactly when it carries
/// `Bearer ` followed by that token; a missing value is refused like a wrong one.
pub proof fn lemma_bearer_policy_admits_exactly(
    token: &str,
    config: AuthConfig,
    supplied: Option<&str>,
)
    requires
        bearer_outcome(token) is Ok,
        policy_matches(Ok(config), bearer_outcome(token)),
    ensures
        config.spec_expected() == Some("Bearer "@ + token@),
        (config.spec_expected() == Some(supplied_value(supplied))) <==> supplied_value(supplied)
            == "Bearer "@ + token@,
{
}

} // verus!

verus! {

/// A bearer token is accepted exactly when it is non-empty, at most 4,089
/// bytes long, and every byte is visible ASCII, `0x21` (`!`) through `0x7E`
/// (`~`), punctuation such as `.`, `-` and `_` included; an accepted token is
/// expected as `Bearer ` followed by the token. An empty token is refused as
/// empty, a longer one as too long with the limit 4,089, and one that holds
/// any byte outside that range as invalid.
pub proof fn lemma_bearer_accepts_visible_ascii(token: &str)
    ensures
        token@.len() == 0 ==> bearer_outcome(token) == Err::<Seq<char>, AuthError>(
            AuthError::EmptyBearerToken,
        ),
        token@.len() > 0 && token.spec_bytes().len() > 4089 ==> bearer_outcome(token) == Err::<
            Seq<char>,
            AuthError,
        >(AuthError::BearerTokenTooLong { limit: 4089 }),
        token@.len() > 0 && token.spec_bytes().len() <= 4089 && (forall|k: int|
            0 <= k < token.spec_bytes().len() ==> 0x21 <= #[trigger] token.spec_bytes()[k]
                <= 0x7E) ==> bearer_outcome(token) == Ok::<Seq<char>, AuthError>(
            "Bearer "@ + token@,
        ),
        token@.len() > 0 && token.spec_bytes().len() <= 4089 && (exists|k: int|
            0 <= k < token.spec_bytes().len() && (#[trigger] token.spec_bytes()[k] < 0x21
                || token.spec_bytes()[k] > 0x7E)) ==> bearer_outcome(token) == Err::<
            Seq<char>,
            AuthError,
        >(AuthError::InvalidBearerToken),
{
}

} // verus!
