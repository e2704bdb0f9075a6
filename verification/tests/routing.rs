use rpc_gateway::error::RpcError;
use rpc_gateway::executor::{FailoverExecution, Outcome, ProxyResponse};
use rpc_gateway::health::HealthTracker;
use rpc_gateway::providers::Weight;
use rpc_gateway::registry::{CandidateBinding, ProviderRegistry};

fn binding(adapter_id: u64, weight: u64) -> CandidateBinding {
    CandidateBinding {
        adapter_id,
        weight: Weight(weight),
    }
}

fn response(status: u16, body: &str) -> ProxyResponse {
    ProxyResponse {
        status,
        content_type: Some("application/json".to_string()),
        body: body.as_bytes().to_vec(),
    }
}

#[test]
fn lookup_is_case_insensitive() {
    let mut registry = ProviderRegistry::new();
    registry.add_chain("eip155:1", vec![binding(1, 3), binding(2, 1)]);
    registry.add_chain("EIP155:137", vec![binding(3, 1)]);
    let upper = registry.candidates_for("EIP155:1");
    let lower = registry.candidates_for("eip155:1");
    assert_eq!(upper, lower);
    assert_eq!(upper.len(), 2);
    assert_eq!(upper[0].adapter_id, 1);
    assert_eq!(upper[1].adapter_id, 2);
    // Mixed-case registration is normalized at insert time too.
    assert_eq!(registry.candidates_for("eip155:137").len(), 1);
}

#[test]
fn unknown_chain_has_no_candidates() {
    let mut registry = ProviderRegistry::new();
    registry.add_chain("eip155:1", vec![binding(1, 1)]);
    assert!(registry.candidates_for("eip155:999").is_empty());
}

#[test]
fn unknown_chain_returns_chain_not_found_without_invoking() {
    let mut registry = ProviderRegistry::new();
    registry.add_chain("eip155:1", vec![binding(1, 1)]);
    let health = HealthTracker::new(100, 10_000);
    let mut exec = FailoverExecution::begin(&registry, "eip155:999", 5);
    let pick = exec.next_attempt(&health, 0, 7);
    assert!(pick.is_none(), "no adapter may be invoked");
    assert_eq!(exec.attempts, 0);
    match exec.result {
        Some(Err(RpcError::ChainNotFound)) => {}
        ref other => panic!("expected ChainNotFound, got {:?}", other.is_some()),
    }
}

#[test]
fn sole_throttled_candidate_terminates_after_one_attempt() {
    let mut registry = ProviderRegistry::new();
    registry.add_chain("eip155:1", vec![binding(1, 1)]);
    let mut health = HealthTracker::new(100, 10_000);
    let mut exec = FailoverExecution::begin(&registry, "eip155:1", 5);
    let pick = exec.next_attempt(&health, 0, 7);
    assert_eq!(pick, Some(1));
    exec.record_outcome(&mut health, 1, Outcome::Throttled, 0);
    let pick = exec.next_attempt(&health, 1, 7);
    assert!(pick.is_none());
    assert_eq!(exec.attempts, 1, "exactly one attempt");
    match exec.result {
        Some(Err(RpcError::Throttled)) => {}
        ref other => panic!("expected Throttled, got {:?}", other.is_some()),
    }
}

#[test]
fn two_transport_failures_then_success() {
    let mut registry = ProviderRegistry::new();
    registry.add_chain("eip155:1", vec![binding(1, 1), binding(2, 1), binding(3, 1)]);
    let mut health = HealthTracker::new(100, 10_000);
    let mut exec = FailoverExecution::begin(&registry, "eip155:1", 10);
    let now = 1_000u64;

    let a1 = exec.next_attempt(&health, now, 5).expect("first pick");
    exec.record_outcome(&mut health, a1, Outcome::TransportError, now);
    let a2 = exec.next_attempt(&health, now, 5).expect("second pick");
    exec.record_outcome(&mut health, a2, Outcome::TransportError, now);
    let a3 = exec.next_attempt(&health, now, 5).expect("third pick");
    exec.record_outcome(&mut health, a3, Outcome::Success(response(200, "ok")), now);

    assert_eq!(exec.attempts, 3, "exactly three attempts");
    assert_ne!(a1, a2);
    assert_ne!(a1, a3);
    assert_ne!(a2, a3);
    match exec.result {
        Some(Ok(ref resp)) => {
            assert_eq!(resp.status, 200);
            assert_eq!(resp.body, b"ok".to_vec());
        }
        ref other => panic!("expected success, got {:?}", other.is_some()),
    }
    // Exactly the two failed adapters are unhealthy.
    assert!(!health.is_healthy(a1, "eip155:1", now));
    assert!(!health.is_healthy(a2, "eip155:1", now));
    assert!(health.is_healthy(a3, "eip155:1", now));
}

#[test]
fn exhaustion_prefers_throttled_over_other_errors() {
    let mut registry = ProviderRegistry::new();
    registry.add_chain("eip155:1", vec![binding(1, 1), binding(2, 1), binding(3, 1)]);
    let mut health = HealthTracker::new(100, 10_000);
    let mut exec = FailoverExecution::begin(&registry, "eip155:1", 10);
    let a1 = exec.next_attempt(&health, 0, 0).unwrap();
    exec.record_outcome(&mut health, a1, Outcome::UpstreamProtocolError, 0);
    let a2 = exec.next_attempt(&health, 0, 0).unwrap();
    exec.record_outcome(&mut health, a2, Outcome::Throttled, 0);
    let a3 = exec.next_attempt(&health, 0, 0).unwrap();
    exec.record_outcome(&mut health, a3, Outcome::TransportError, 0);
    let pick = exec.next_attempt(&health, 0, 0);
    assert!(pick.is_none());
    match exec.result {
        Some(Err(RpcError::Throttled)) => {}
        _ => panic!("the most actionable error wins"),
    }
}

#[test]
fn upstream_chain_not_found_is_terminal() {
    let mut registry = ProviderRegistry::new();
    registry.add_chain("eip155:1", vec![binding(1, 1), binding(2, 1)]);
    let mut health = HealthTracker::new(100, 10_000);
    let mut exec = FailoverExecution::begin(&registry, "eip155:1", 10);
    let a1 = exec.next_attempt(&health, 0, 0).unwrap();
    exec.record_outcome(&mut health, a1, Outcome::ChainNotFound, 0);
    match exec.result {
        Some(Err(RpcError::ChainNotFound)) => {}
        _ => panic!("ChainNotFound must end the request at once"),
    }
    // It carries no health penalty.
    assert!(health.is_healthy(a1, "eip155:1", 0));
}

#[test]
fn attempts_are_bounded_by_max_attempts() {
    let mut registry = ProviderRegistry::new();
    registry.add_chain("eip155:1", vec![binding(1, 1), binding(2, 1), binding(3, 1)]);
    let mut health = HealthTracker::new(100, 10_000);
    let mut exec = FailoverExecution::begin(&registry, "eip155:1", 2);
    let a1 = exec.next_attempt(&health, 0, 0).unwrap();
    exec.record_outcome(&mut health, a1, Outcome::TransportError, 0);
    let a2 = exec.next_attempt(&health, 0, 0).unwrap();
    exec.record_outcome(&mut health, a2, Outcome::TransportError, 0);
    let pick = exec.next_attempt(&health, 0, 0);
    assert!(pick.is_none(), "the budget of two attempts is spent");
    assert_eq!(exec.attempts, 2);
    match exec.result {
        Some(Err(RpcError::TransportError)) => {}
        _ => panic!("the last classified error is surfaced"),
    }
}
