//! Deterministic bounded fault injection.

use portunus::daemon::fault::{
    DisabledFaults, FaultInjector, FaultPoint, FaultScript, FaultScriptError, InjectedFault,
};

// The disabled injector succeeds at every point.
#[test]
fn disabled_faults_never_change_behavior() {
    let mut faults = DisabledFaults;
    for point in FaultPoint::ALL {
        assert!(faults.check(point).is_ok());
    }
}

// Armed points fail exactly their configured number of times, within the rule ceiling.
#[test]
fn consumes_bounded_scripted_failures() {
    assert_eq!(
        FaultScript::new(0).unwrap_err(),
        FaultScriptError::ZeroRuleLimit
    );
    let mut faults = FaultScript::new(2).unwrap();
    assert_eq!(
        faults.arm(FaultPoint::AddTransfer, 0),
        Err(FaultScriptError::ZeroFailures)
    );
    faults.arm(FaultPoint::AddTransfer, 2).unwrap();
    faults.arm(FaultPoint::StopTransfer, 1).unwrap();
    assert_eq!(
        faults.arm(FaultPoint::UpdateConfig, 1).unwrap_err(),
        FaultScriptError::RuleLimitExceeded { limit: 2 }
    );
    assert!(faults.check(FaultPoint::AddTransfer).is_err());
    assert!(faults.check(FaultPoint::AddTransfer).is_err());
    assert!(faults.check(FaultPoint::AddTransfer).is_ok());
    assert!(faults.check(FaultPoint::StopTransfer).is_err());
    assert!(faults.check(FaultPoint::StopTransfer).is_ok());
}

// Re-arming an armed point replaces its count without using another rule.
#[test]
fn rearming_an_armed_point_replaces_its_count() {
    let mut faults = FaultScript::new(1).unwrap();
    faults.arm(FaultPoint::StreamMetrics, 3).unwrap();
    faults.arm(FaultPoint::StreamMetrics, 1).unwrap();
    assert_eq!(
        faults.check(FaultPoint::StreamMetrics),
        Err(InjectedFault { point: FaultPoint::StreamMetrics })
    );
    assert!(faults.check(FaultPoint::StreamMetrics).is_ok());
    // An exhausted point frees its rule for another point.
    faults.arm(FaultPoint::UpdateConfig, 1).unwrap();
    assert!(faults.check(FaultPoint::UpdateConfig).is_err());
}
