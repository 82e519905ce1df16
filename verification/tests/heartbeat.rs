//! Closures as heartbeat factories.

use portunus::transport::heartbeat::HeartbeatFactory;

// A stateful closure yields successive values through the factory trait.
#[test]
fn adapts_stateful_closures_as_heartbeat_factories() {
    let mut sequence = 0_u8;
    let mut factory = move || {
        sequence += 1;
        sequence
    };

    assert_eq!(factory.heartbeat(), 1);
    assert_eq!(factory.heartbeat(), 2);
}
