//! Configuration and stage policy of the deterministic offline reference workload.
//!
//! The workload parses fixed metadata, discovers synthetic endpoints, moves one
//! framed piece through in-memory sessions, commits it and completes one engine
//! job. This module validates the workload's bounds before any fixture exists and
//! decides where a configured fault stops it; running the stages belongs to the
//! runtime.

use vstd::prelude::*;

verus! {

/// Opaque destination path of the committed piece; carried, never inspected.
#[verifier::external_type_specification]
#[verifier::external_body]
pub struct ExPathBuf(std::path::PathBuf);

/// Largest synthetic endpoint population: every endpoint needs its own port.
pub const MAX_CANDIDATE_ENDPOINTS: usize = 65535;

/// Largest piece the workload moves: its length must fit a wire length field.
pub const MAX_PAYLOAD_BYTES: u64 = 4294967295;

/// Stable component boundaries available for deterministic failure injection.
#[derive(Clone, Copy, Debug, Eq, PartialEq, Structural)]
pub enum SimulationStage {
    AfterDiscovery,
    AfterTransport,
}

/// Stable workload failures that do not expose component types.
#[derive(Clone, Copy, Debug)]
pub enum SimulationError {
    /// The configured bounds are inconsistent.
    InvalidConfig,
    /// Execution stopped at the configured fault boundary.
    Injected(SimulationStage),
    /// A component rejected the workload during the named stage.
    Stage(&'static str),
}

/// Validated inputs for one deterministic reference transfer.
#[derive(Debug)]
pub struct ReferenceWorkloadConfig {
    destination: std::path::PathBuf,
    candidate_endpoints: usize,
    max_endpoints: usize,
    payload: Vec<u8>,
    fault: Option<SimulationStage>,
}

/// Stable measurements produced by the offline workload.
#[derive(Clone, Debug, Eq, PartialEq)]
pub struct ReferenceWorkloadReport {
    pub candidate_endpoints: usize,
    pub admitted_endpoints: usize,
    pub parsed_name: Vec<u8>,
    pub transferred_bytes: usize,
    pub outbound_frames: u64,
    pub inbound_frames: u64,
    pub engine_completed: bool,
}

/// Whether a population, admission ceiling and piece length are consistent:
/// a nonempty population that ports can address, a nonzero ceiling no larger
/// than the population, and a nonempty piece whose length fits 32 bits.
pub open spec fn workload_bounds_valid(candidates: int, admitted: int, payload_len: int) -> bool {
    &&& 0 < candidates <= MAX_CANDIDATE_ENDPOINTS
    &&& 0 < admitted <= candidates
    &&& 0 < payload_len <= MAX_PAYLOAD_BYTES
}

impl ReferenceWorkloadConfig {
    pub closed spec fn spec_destination(&self) -> std::path::PathBuf {
        self.destination
    }

    pub closed spec fn spec_candidate_endpoints(&self) -> usize {
        self.candidate_endpoints
    }

    pub closed spec fn spec_max_endpoints(&self) -> usize {
        self.max_endpoints
    }

    pub closed spec fn spec_payload(&self) -> Seq<u8> {
        self.payload@
    }

    pub closed spec fn spec_fault(&self) -> Option<SimulationStage> {
        self.fault
    }

    /// Validates a destination, synthetic population, admission ceiling and one
    /// piece into a configuration with no fault; inconsistent bounds are
    /// rejected before any fixture is allocated.
    pub fn new(
        destination: std::path::PathBuf,
        candidates: usize,
        admitted: usize,
        payload: Vec<u8>,
    ) -> (config: Result<Self, SimulationError>)
        ensures
            config is Ok <==> workload_bounds_valid(
                candidates as int,
                admitted as int,
                payload@.len() as int,
            ),
            config is Err ==> config->Err_0 is InvalidConfig,
            config matches Ok(c) ==> {
                &&& c.spec_destination() == destination
                &&& c.spec_candidate_endpoints() == candidates
                &&& c.spec_max_endpoints() == admitted
                &&& c.spec_payload() == payload@
                &&& c.spec_fault() is None
            },
    {
        if candidates == 0 || candidates > MAX_CANDIDATE_ENDPOINTS || admitted == 0
            || admitted > candidates || payload.len() == 0
            || payload.len() as u64 > MAX_PAYLOAD_BYTES {
            return Err(SimulationError::InvalidConfig);
        }
        Ok(ReferenceWorkloadConfig {
            destination,
            candidate_endpoints: candidates,
            max_endpoints: admitted,
            payload,
            fault: None,
        })
    }

    /// Sets the one boundary at which execution should fail, replacing any
    /// earlier choice and keeping everything else.
    pub fn with_fault(self, stage: SimulationStage) -> (config: Self)
        ensures
            config.spec_destination() == self.spec_destination(),
            config.spec_candidate_endpoints() == self.spec_candidate_endpoints(),
            config.spec_max_endpoints() == self.spec_max_endpoints(),
            config.spec_payload() == self.spec_payload(),
            config.spec_fault() == Some(stage),
    {
        let mut config = self;
        config.fault = Some(stage);
        config
    }

    /// Where the committed piece is written.
    pub fn destination(&self) -> (destination: &std::path::PathBuf)
        ensures
            *destination == self.spec_destination(),
    {
        &self.destination
    }

    /// Size of the synthetic endpoint population.
    pub fn candidate_endpoints(&self) -> (count: usize)
        ensures
            count == self.spec_candidate_endpoints(),
    {
        self.candidate_endpoints
    }

    /// Largest number of endpoints discovery may admit.
    pub fn max_endpoints(&self) -> (count: usize)
        ensures
            count == self.spec_max_endpoints(),
    {
        self.max_endpoints
    }

    /// The piece the workload moves.
    pub fn payload(&self) -> (payload: &[u8])
        ensures
            payload@ == self.spec_payload(),
    {
        self.payload.as_slice()
    }

    /// The configured fault boundary, if any.
    pub fn fault(&self) -> (fault: Option<SimulationStage>)
        ensures
            fault == self.spec_fault(),
    {
        self.fault
    }
}

/// Decides whether execution stops at the boundary just `reached`: it stops
/// exactly when that boundary is the configured one.
pub fn inject(configured: Option<SimulationStage>, reached: SimulationStage) -> (outcome: Result<
    (),
    SimulationError,
>)
    ensures
        outcome is Err <==> configured == Some(reached),
        outcome matches Err(e) ==> e == SimulationError::Injected(reached),
{
    match configured {
        Some(stage) if stage == reached => Err(SimulationError::Injected(reached)),
        _ => Ok(()),
    }
}

} // verus!
