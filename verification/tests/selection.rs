use rpc_gateway::health::HealthTracker;
use rpc_gateway::providers::Weight;
use rpc_gateway::registry::CandidateBinding;
use rpc_gateway::selector::select;

fn next_rnd(state: &mut u64) -> u64 {
    *state = state
        .wrapping_mul(6364136223846793005)
        .wrapping_add(1442695040888963407);
    *state >> 16
}

fn binding(adapter_id: u64, weight: u64) -> CandidateBinding {
    CandidateBinding {
        adapter_id,
        weight: Weight(weight),
    }
}

#[test]
fn weighted_frequencies_converge() {
    // Weights {A:3, B:1} and no health penalties: over 2000 independent
    // selections A's observed frequency converges to 75% within +/- 5pp.
    let cands = vec![binding(1, 3), binding(2, 1)];
    let excluded: Vec<u64> = Vec::new();
    let health = HealthTracker::new(100, 10_000);
    let mut state: u64 = 42;
    let n = 2000;
    let mut a_count = 0usize;
    for _ in 0..n {
        let rnd = next_rnd(&mut state);
        let picked = select(&cands, &excluded, &health, "eip155:1", 0, rnd)
            .expect("both candidates are eligible");
        if cands[picked].adapter_id == 1 {
            a_count += 1;
        }
    }
    let frac = a_count as f64 / n as f64;
    assert!(
        frac >= 0.70 && frac <= 0.80,
        "observed frequency of A was {}",
        frac
    );
}

#[test]
fn zero_weight_candidates_fall_back_to_uniform() {
    let cands = vec![binding(1, 0), binding(2, 0)];
    let excluded: Vec<u64> = Vec::new();
    let health = HealthTracker::new(100, 10_000);
    // rnd % count picks the rnd-th eligible candidate.
    let first = select(&cands, &excluded, &health, "eip155:1", 0, 0).unwrap();
    assert_eq!(cands[first].adapter_id, 1);
    let second = select(&cands, &excluded, &health, "eip155:1", 0, 1).unwrap();
    assert_eq!(cands[second].adapter_id, 2);
    let mut seen_one = false;
    let mut seen_two = false;
    let mut state: u64 = 7;
    for _ in 0..100 {
        let rnd = next_rnd(&mut state);
        let picked = select(&cands, &excluded, &health, "eip155:1", 0, rnd).unwrap();
        match cands[picked].adapter_id {
            1 => seen_one = true,
            2 => seen_two = true,
            other => panic!("unexpected adapter {}", other),
        }
    }
    assert!(seen_one && seen_two, "no candidate may be starved");
}

#[test]
fn excluded_adapters_are_never_picked() {
    let cands = vec![binding(1, 3), binding(2, 1)];
    let excluded: Vec<u64> = vec![1];
    let health = HealthTracker::new(100, 10_000);
    let mut state: u64 = 9;
    for _ in 0..50 {
        let rnd = next_rnd(&mut state);
        let picked = select(&cands, &excluded, &health, "eip155:1", 0, rnd).unwrap();
        assert_eq!(cands[picked].adapter_id, 2);
    }
}

#[test]
fn exhausted_candidates_yield_none() {
    let cands = vec![binding(1, 3), binding(2, 1)];
    let excluded: Vec<u64> = vec![1, 2];
    let health = HealthTracker::new(100, 10_000);
    assert!(select(&cands, &excluded, &health, "eip155:1", 0, 5).is_none());
}

#[test]
fn unhealthy_adapters_are_filtered() {
    let cands = vec![binding(1, 3), binding(2, 1)];
    let excluded: Vec<u64> = Vec::new();
    let mut health = HealthTracker::new(100, 10_000);
    health.record_failure(1, "eip155:1", rpc_gateway::error::RpcError::Throttled, 1_000);
    // Within the backoff window adapter 1 is skipped entirely.
    let mut state: u64 = 11;
    for _ in 0..50 {
        let rnd = next_rnd(&mut state);
        let picked = select(&cands, &excluded, &health, "eip155:1", 1_000, rnd).unwrap();
        assert_eq!(cands[picked].adapter_id, 2);
    }
    // Once the window has passed, adapter 1 is offered again.
    let mut seen_one = false;
    for _ in 0..50 {
        let rnd = next_rnd(&mut state);
        let picked = select(&cands, &excluded, &health, "eip155:1", 2_000, rnd).unwrap();
        if cands[picked].adapter_id == 1 {
            seen_one = true;
        }
    }
    assert!(seen_one);
}
