//! Bounded fail-fast admission policy for control-plane requests.
//!
//! One nonzero limit defines the inclusive concurrent-call ceiling shared by all
//! control requests. The runtime enforces it with owned permits; this module
//! validates and resolves the ceiling.
//!
//! This module does not queue callers, authorize identities, rate-limit bytes,
//! choose retry delays, or install global observability.

use crate::daemon::text::{parse_decimal, parse_unsigned};
use vstd::prelude::*;
use vstd::string::StringSliceAdditionalSpecFns;

verus! {

/// Concurrent control requests admitted when no limit is configured.
pub const DEFAULT_ADMISSION_LIMIT: usize = 128;

/// Validated inclusive ceiling on concurrently admitted control requests.
#[derive(Clone, Copy, Debug, Eq, PartialEq, Structural)]
pub struct AdmissionConfig {
    limit: usize,
}

/// Stable admission configuration failures.
#[derive(Clone, Copy, Debug, Eq, PartialEq, Structural)]
pub enum AdmissionError {
    ZeroLimit,
    InvalidLimit,
}

impl AdmissionConfig {
    /// The inclusive concurrent-request ceiling.
    pub closed spec fn spec_limit(self) -> nat {
        self.limit as nat
    }

    /// Validates an inclusive concurrent-request ceiling; zero is rejected.
    pub fn new(limit: usize) -> (config: Result<Self, AdmissionError>)
        ensures
            limit == 0 ==> config == Err::<Self, AdmissionError>(AdmissionError::ZeroLimit),
            limit != 0 ==> (config matches Ok(c) && c.spec_limit() == limit),
    {
        if limit == 0 {
            return Err(AdmissionError::ZeroLimit);
        }
        Ok(AdmissionConfig { limit })
    }

    /// Resolves an optional decimal source: absence selects the default of 128,
    /// malformed or out-of-range text is an invalid limit, and every parsed
    /// value passes through the same nonzero validation.
    pub fn from_source(source: Option<&str>) -> (config: Result<Self, AdmissionError>)
        ensures
            source is None ==> (config matches Ok(c) && c.spec_limit() == DEFAULT_ADMISSION_LIMIT),
            source matches Some(text) ==> match parse_unsigned(text.spec_bytes(), usize::MAX as nat) {
                None => config == Err::<Self, AdmissionError>(AdmissionError::InvalidLimit),
                Some(limit) => if limit == 0 {
                    config == Err::<Self, AdmissionError>(AdmissionError::ZeroLimit)
                } else {
                    config matches Ok(c) && c.spec_limit() == limit
                },
            },
    {
        match source {
            None => Self::new(DEFAULT_ADMISSION_LIMIT),
            Some(text) => match parse_decimal(text, usize::MAX as u64) {
                None => Err(AdmissionError::InvalidLimit),
                Some(limit) => Self::new(limit as usize),
            },
        }
    }

    /// Returns the inclusive concurrent-request ceiling.
    pub fn limit(&self) -> (limit: usize)
        ensures
            limit == self.spec_limit(),
    {
        self.limit
    }
}

} // verus!
