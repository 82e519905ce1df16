//! Offline reference workload: bound validation and fault placement.

use portunus::daemon::simulation::{
    inject, ReferenceWorkloadConfig, SimulationError, SimulationStage,
};
use std::path::PathBuf;

// A large consistent population is accepted and kept as given.
#[test]
fn accepts_a_consistent_reference_workload() {
    let config = ReferenceWorkloadConfig::new(
        PathBuf::from("reference.bin"),
        8_192,
        4_096,
        b"offline payload".to_vec(),
    )
    .unwrap();
    assert_eq!(config.destination(), &PathBuf::from("reference.bin"));
    assert_eq!(config.candidate_endpoints(), 8_192);
    assert_eq!(config.max_endpoints(), 4_096);
    assert_eq!(config.payload(), b"offline payload");
    assert_eq!(config.fault(), None);
}

// Every inconsistent bound is refused before anything is built.
#[test]
fn rejects_inconsistent_workload_bounds() {
    let cases: [(usize, usize, Vec<u8>); 5] = [
        (0, 1, b"p".to_vec()),
        (65_536, 1, b"p".to_vec()),
        (4, 0, b"p".to_vec()),
        (4, 5, b"p".to_vec()),
        (4, 4, Vec::new()),
    ];
    for (candidates, admitted, payload) in cases {
        assert!(matches!(
            ReferenceWorkloadConfig::new(PathBuf::from("x"), candidates, admitted, payload),
            Err(SimulationError::InvalidConfig)
        ));
    }
    assert!(ReferenceWorkloadConfig::new(PathBuf::from("x"), 65_535, 65_535, vec![1]).is_ok());
}

// A configured fault stops execution at exactly its own boundary.
#[test]
fn injects_a_deterministic_full_stack_failure() {
    let config = ReferenceWorkloadConfig::new(PathBuf::from("x"), 2_048, 64, b"payload".to_vec())
        .unwrap()
        .with_fault(SimulationStage::AfterDiscovery);

    assert_eq!(config.fault(), Some(SimulationStage::AfterDiscovery));
    assert!(matches!(
        inject(config.fault(), SimulationStage::AfterDiscovery),
        Err(SimulationError::Injected(SimulationStage::AfterDiscovery))
    ));
    assert!(inject(config.fault(), SimulationStage::AfterTransport).is_ok());
    assert!(inject(None, SimulationStage::AfterTransport).is_ok());
    assert_eq!(config.candidate_endpoints(), 2_048);
}
