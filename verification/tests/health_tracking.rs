use rpc_gateway::error::RpcError;
use rpc_gateway::health::{backoff_delay, HealthTracker};

#[test]
fn is_healthy_is_idempotent() {
    // Without an intervening record, repeated queries never change.
    let mut health = HealthTracker::new(100, 10_000);
    for _ in 0..5 {
        assert!(health.is_healthy(1, "eip155:1", 0));
    }
    health.record_failure(1, "eip155:1", RpcError::Throttled, 1_000);
    let first = health.is_healthy(1, "eip155:1", 1_000);
    for _ in 0..5 {
        assert_eq!(health.is_healthy(1, "eip155:1", 1_000), first);
    }
}

#[test]
fn success_clears_any_failure_history() {
    let mut health = HealthTracker::new(100, 10_000);
    for _ in 0..8 {
        health.record_failure(1, "eip155:1", RpcError::TransportError, 1_000);
    }
    assert!(!health.is_healthy(1, "eip155:1", 1_000));
    health.record_success(1, "eip155:1");
    assert!(health.is_healthy(1, "eip155:1", 0));
    assert!(health.is_healthy(1, "eip155:1", 1_000));
    assert!(health.is_healthy(1, "eip155:1", u64::MAX));
}

#[test]
fn backoff_doubles_up_to_the_cap() {
    assert_eq!(backoff_delay(100, 10_000, 1), 100);
    assert_eq!(backoff_delay(100, 10_000, 2), 200);
    assert_eq!(backoff_delay(100, 10_000, 3), 400);
    assert_eq!(backoff_delay(100, 10_000, 5), 1_600);
    assert_eq!(backoff_delay(100, 10_000, 8), 10_000);
    assert_eq!(backoff_delay(100, 10_000, 200), 10_000);
}

#[test]
fn backoff_window_expires() {
    let mut health = HealthTracker::new(100, 10_000);
    health.record_failure(1, "eip155:1", RpcError::Throttled, 1_000);
    // One failure: unhealthy until 1_000 + 100.
    assert!(!health.is_healthy(1, "eip155:1", 1_000));
    assert!(!health.is_healthy(1, "eip155:1", 1_099));
    assert!(health.is_healthy(1, "eip155:1", 1_100));
}

#[test]
fn only_throttling_and_transport_penalize() {
    let mut health = HealthTracker::new(100, 10_000);
    health.record_failure(1, "eip155:1", RpcError::UpstreamProtocolError, 1_000);
    health.record_failure(1, "eip155:1", RpcError::ChainNotFound, 1_000);
    health.record_failure(1, "eip155:1", RpcError::CursorParseError, 1_000);
    assert!(health.is_healthy(1, "eip155:1", 1_000));
    health.record_failure(1, "eip155:1", RpcError::TransportError, 1_000);
    assert!(!health.is_healthy(1, "eip155:1", 1_000));
}

#[test]
fn pairs_are_tracked_independently() {
    let mut health = HealthTracker::new(100, 10_000);
    health.record_failure(1, "eip155:1", RpcError::Throttled, 1_000);
    assert!(!health.is_healthy(1, "eip155:1", 1_000));
    assert!(health.is_healthy(1, "eip155:137", 1_000));
    assert!(health.is_healthy(2, "eip155:1", 1_000));
    health.record_success(2, "eip155:1");
    assert!(!health.is_healthy(1, "eip155:1", 1_000));
}
