//! The failover executor.
//!
//! One request is driven as a small state machine: resolve the chain's
//! candidates from the registry, then alternate `next_attempt` (pick one
//! untried healthy candidate, weighted-randomly) and `record_outcome`
//! (classify what the adapter returned, update health, decide whether to
//! retry). The upstream call itself happens between the two steps, outside
//! this crate, so every routing decision here is verified while the transport
//! stays where it belongs. Attempts are bounded by
//! `min(max_attempts, number of candidates)`; on exhaustion the most
//! actionable error seen wins (throttling over transport failure over a
//! protocol anomaly).

use vstd::prelude::*;
use crate::chain::{lemma_norm_idempotent, norm_chain_id, normalize_chain_id};
use crate::error::{spec_retry_priority, RpcError};
use crate::health::{spec_backoff, spec_bump, spec_deadline, HealthTracker};
use crate::registry::{wf_candidates, CandidateBinding, ProviderRegistry};
use crate::selector::{select, selection_ok, spec_eligible, eligible_count_prefix};

verus! {

/// A successful upstream response, passed through verbatim: the executor
/// never rewrites a successful payload.
#[derive(PartialEq, Eq, Debug)]
pub struct ProxyResponse {
    pub status: u16,
    pub content_type: Option<String>,
    pub body: Vec<u8>,
}

/// Classified result of one adapter invocation: exactly one tag per attempt.
/// Adapters never leak raw transport failures; they classify.
#[derive(PartialEq, Eq, Debug)]
pub enum Outcome {
    Success(ProxyResponse),
    Throttled,
    ChainNotFound,
    TransportError,
    UpstreamProtocolError,
}

/// The more actionable of the retryable errors seen so far.
pub open spec fn spec_merge_best(best: Option<RpcError>, e: RpcError) -> Option<RpcError> {
    match best {
        None => Some(e),
        Some(p) => if spec_retry_priority(e) > spec_retry_priority(p) {
            Some(e)
        } else {
            Some(p)
        },
    }
}

/// The error surfaced on exhaustion: the best retryable error seen, or
/// `Throttled` when no attempt was ever made because every candidate was
/// already backing off (their unhealthiness stems from throttling or
/// transport failure, and backing off is the actionable signal).
pub open spec fn spec_exhaust_error(best: Option<RpcError>) -> RpcError {
    match best {
        None => RpcError::Throttled,
        Some(e) => e,
    }
}

/// One in-flight request's routing state.
pub struct FailoverExecution {
    /// The request's chain id, in canonical form.
    pub chain_id: String,
    /// The chain's candidates as the registry listed them.
    pub candidates: Vec<CandidateBinding>,
    /// Adapters already offered to this request.
    pub excluded: Vec<u64>,
    /// Attempts issued so far.
    pub attempts: u64,
    /// Cap the caller put on attempts.
    pub max_attempts: u64,
    /// The most actionable retryable error seen so far.
    pub best_error: Option<RpcError>,
    /// The request's final result, once decided.
    pub result: Option<Result<ProxyResponse, RpcError>>,
}

impl FailoverExecution {
    /// Attempts never exceed this: the caller's cap, and one per distinct
    /// candidate.
    pub open spec fn spec_budget(self) -> int {
        if self.max_attempts <= self.candidates@.len() {
            self.max_attempts as int
        } else {
            self.candidates@.len() as int
        }
    }

    /// The chain id is canonical, the candidate list is empty or well-formed,
    /// and the best error seen is a retryable one.
    pub open spec fn wf(self) -> bool {
        &&& self.chain_id@ == norm_chain_id(self.chain_id@)
        &&& (self.candidates@.len() == 0 || wf_candidates(self.candidates@))
        &&& match self.best_error {
            None => true,
            Some(e) => spec_retry_priority(e) >= 1,
        }
    }

    /// Starts a request: resolves the chain's candidates once. No upstream
    /// call is made here.
    pub fn begin(registry: &ProviderRegistry, chain_id: &str, max_attempts: u64) -> (e:
        FailoverExecution)
        requires
            registry.wf(),
        ensures
            e.wf(),
            e.chain_id@ == norm_chain_id(chain_id@),
            e.candidates@ == registry.spec_candidates(norm_chain_id(chain_id@)),
            e.excluded@ == Seq::<u64>::empty(),
            e.attempts == 0,
            e.max_attempts == max_attempts,
            e.best_error is None,
            e.result is None,
    {
        proof {
            lemma_norm_idempotent(chain_id@);
        }
        let e = FailoverExecution {
            chain_id: normalize_chain_id(chain_id),
            candidates: registry.candidates_for(chain_id),
            excluded: Vec::new(),
            attempts: 0,
            max_attempts,
            best_error: None,
            result: None,
        };
        e
    }

    /// Picks the next candidate to invoke, or decides the request's final
    /// error. `Some(adapter)` means: invoke that adapter and hand its
    /// classified outcome to [`Self::record_outcome`]. `None` means the
    /// request is finished with the error now in `result`.
    pub fn next_attempt(&mut self, health: &HealthTracker, now_ms: u64, rnd: u64) -> (r: Option<
        u64,
    >)
        requires
            old(self).wf(),
            old(self).result is None,
            health.wf(),
        ensures
            final(self).wf(),
            next_attempt_rel(*old(self), *health, now_ms, rnd, *final(self), r),
            r is None ==> final(self).result matches Some(Err(_)),
            r is Some ==> final(self).result is None,
    {
        if self.candidates.len() == 0 {
            self.result = Some(Err(RpcError::ChainNotFound));
            return None;
        }
        let budget: u64 = if self.max_attempts <= self.candidates.len() as u64 {
            self.max_attempts
        } else {
            self.candidates.len() as u64
        };
        if self.attempts >= budget {
            let e = match self.best_error {
                Some(e) => e,
                None => RpcError::Throttled,
            };
            self.result = Some(Err(e));
            return None;
        }
        let picked = select(
            &self.candidates,
            &self.excluded,
            health,
            self.chain_id.as_str(),
            now_ms,
            rnd,
        );
        match picked {
            None => {
                let e = match self.best_error {
                    Some(e) => e,
                    None => RpcError::Throttled,
                };
                self.result = Some(Err(e));
                proof {
                    assert(selection_ok(
                        old(self).candidates@,
                        old(self).excluded@,
                        *health,
                        old(self).chain_id@,
                        now_ms,
                        rnd,
                        Option::<int>::None,
                    ));
                }
                None
            },
            Some(i) => {
                let a = self.candidates[i].adapter_id;
                self.excluded.push(a);
                self.attempts = self.attempts + 1;
                proof {
                    assert(selection_ok(
                        old(self).candidates@,
                        old(self).excluded@,
                        *health,
                        old(self).chain_id@,
                        now_ms,
                        rnd,
                        Some(i as int),
                    ));
                }
                Some(a)
            },
        }
    }

    /// Classifies one attempt's outcome and updates the request and the
    /// health tracker. Success or `ChainNotFound` finish the request; a
    /// retryable failure leaves it running for the next pick, penalizing the
    /// adapter's health exactly when the failure was throttling or transport.
    pub fn record_outcome(
        &mut self,
        health: &mut HealthTracker,
        adapter_id: u64,
        outcome: Outcome,
        now_ms: u64,
    )
        requires
            old(self).wf(),
            old(self).result is None,
            old(health).wf(),
        ensures
            final(self).wf(),
            final(health).wf(),
            record_outcome_rel(
                *old(self),
                *old(health),
                adapter_id,
                outcome,
                now_ms,
                *final(self),
                *final(health),
            ),
    {
        match outcome {
            Outcome::Success(resp) => {
                health.record_success(adapter_id, self.chain_id.as_str());
                self.result = Some(Ok(resp));
            },
            Outcome::ChainNotFound => {
                self.result = Some(Err(RpcError::ChainNotFound));
            },
            Outcome::Throttled => {
                health.record_failure(
                    adapter_id,
                    self.chain_id.as_str(),
                    RpcError::Throttled,
                    now_ms,
                );
                self.merge_best(RpcError::Throttled);
            },
            Outcome::TransportError => {
                health.record_failure(
                    adapter_id,
                    self.chain_id.as_str(),
                    RpcError::TransportError,
                    now_ms,
                );
                self.merge_best(RpcError::TransportError);
            },
            Outcome::UpstreamProtocolError => {
                self.merge_best(RpcError::UpstreamProtocolError);
            },
        }
    }

    /// Folds one retryable error into the best seen so far.
    fn merge_best(&mut self, e: RpcError)
        requires
            spec_retry_priority(e) >= 1,
            old(self).wf(),
        ensures
            final(self).wf(),
            *final(self) == (FailoverExecution {
                best_error: spec_merge_best(old(self).best_error, e),
                ..*old(self)
            }),
    {
        let p = retry_priority(e);
        let nb = match self.best_error {
            None => Some(e),
            Some(prev) => if p > retry_priority(prev) {
                Some(e)
            } else {
                Some(prev)
            },
        };
        self.best_error = nb;
    }
}

/// Executable twin of [`spec_retry_priority`].
fn retry_priority(e: RpcError) -> (r: u64)
    ensures
        r == spec_retry_priority(e),
{
    match e {
        RpcError::Throttled => 3,
        RpcError::TransportError => 2,
        RpcError::UpstreamProtocolError => 1,
        _ => 0,
    }
}

/// The fields a step never touches.
pub open spec fn same_static(pre: FailoverExecution, post: FailoverExecution) -> bool {
    &&& post.chain_id == pre.chain_id
    &&& post.candidates == pre.candidates
    &&& post.max_attempts == pre.max_attempts
}

/// The step finished the request with this error and changed nothing else.
pub open spec fn finished_with_error(
    pre: FailoverExecution,
    post: FailoverExecution,
    e: RpcError,
) -> bool {
    &&& same_static(pre, post)
    &&& post.excluded == pre.excluded
    &&& post.attempts == pre.attempts
    &&& post.best_error == pre.best_error
    &&& post.result == Some(Result::<ProxyResponse, RpcError>::Err(e))
}

/// The step left the request running, folding one retryable error in.
pub open spec fn still_retrying(
    pre: FailoverExecution,
    post: FailoverExecution,
    e: RpcError,
) -> bool {
    &&& same_static(pre, post)
    &&& post.excluded == pre.excluded
    &&& post.attempts == pre.attempts
    &&& post.best_error == spec_merge_best(pre.best_error, e)
    &&& post.result is None
}

/// One classified failure was recorded against the pair: counter bumped,
/// backoff deadline pushed out, every other pair untouched.
pub open spec fn health_failure_rel(
    hpre: HealthTracker,
    hpost: HealthTracker,
    a: u64,
    c: Seq<char>,
    now_ms: u64,
) -> bool {
    &&& hpost.wf()
    &&& hpost.base_delay_ms == hpre.base_delay_ms
    &&& hpost.max_delay_ms == hpre.max_delay_ms
    &&& hpost.spec_has_entry(a, c)
    &&& hpost.spec_failures(a, c) == spec_bump(hpre.spec_failures(a, c))
    &&& hpost.spec_until(a, c) == spec_deadline(
        now_ms,
        spec_backoff(hpre.base_delay_ms, hpre.max_delay_ms, spec_bump(hpre.spec_failures(a, c))),
    )
    &&& (now_ms < u64::MAX ==> !hpost.spec_is_healthy(a, c, now_ms))
    &&& (forall|a2: u64, c2: Seq<char>|
        !(a2 == a && c2 == c) ==> hpost.spec_has_entry(a2, c2) == hpre.spec_has_entry(a2, c2)
            && hpost.spec_failures(a2, c2) == hpre.spec_failures(a2, c2) && hpost.spec_until(
            a2,
            c2,
        ) == hpre.spec_until(a2, c2))
}

/// One success was recorded for the pair: its state cleared, so it is healthy
/// at every time regardless of its prior failure count; every other pair
/// untouched.
pub open spec fn health_success_rel(
    hpre: HealthTracker,
    hpost: HealthTracker,
    a: u64,
    c: Seq<char>,
) -> bool {
    &&& hpost.wf()
    &&& hpost.base_delay_ms == hpre.base_delay_ms
    &&& hpost.max_delay_ms == hpre.max_delay_ms
    &&& (forall|t: u64| hpost.spec_is_healthy(a, c, t))
    &&& hpost.spec_failures(a, c) == 0
    &&& (forall|a2: u64, c2: Seq<char>|
        !(a2 == a && c2 == c) ==> hpost.spec_has_entry(a2, c2) == hpre.spec_has_entry(a2, c2)
            && hpost.spec_failures(a2, c2) == hpre.spec_failures(a2, c2) && hpost.spec_until(
            a2,
            c2,
        ) == hpre.spec_until(a2, c2))
}

/// What one pick step does.
///
/// An empty candidate list is a registry-level fact: the request finishes
/// with `ChainNotFound` without any adapter being offered. A spent attempt
/// budget, or no eligible candidate left, finishes it with the exhaustion
/// error. Otherwise the weighted selection picks one eligible candidate,
/// which is counted and excluded from later picks.
pub open spec fn next_attempt_rel(
    pre: FailoverExecution,
    h: HealthTracker,
    now_ms: u64,
    rnd: u64,
    post: FailoverExecution,
    r: Option<u64>,
) -> bool {
    if pre.candidates@.len() == 0 {
        &&& r is None
        &&& finished_with_error(pre, post, RpcError::ChainNotFound)
    } else if pre.attempts >= pre.spec_budget() {
        &&& r is None
        &&& finished_with_error(pre, post, spec_exhaust_error(pre.best_error))
    } else {
        exists|sel: Option<int>|
            {
                &&& #[trigger] selection_ok(
                    pre.candidates@,
                    pre.excluded@,
                    h,
                    pre.chain_id@,
                    now_ms,
                    rnd,
                    sel,
                )
                &&& match sel {
                    None => {
                        &&& r is None
                        &&& finished_with_error(pre, post, spec_exhaust_error(pre.best_error))
                    },
                    Some(i) => {
                        &&& r == Some(pre.candidates@[i].adapter_id)
                        &&& same_static(pre, post)
                        &&& post.excluded@ == pre.excluded@.push(pre.candidates@[i].adapter_id)
                        &&& post.attempts == pre.attempts + 1
                        &&& post.best_error == pre.best_error
                        &&& post.result is None
                    },
                }
            }
    }
}

/// What one outcome step does, per tag.
///
/// Success passes the response through verbatim and clears the adapter's
/// health. `ChainNotFound` is terminal and penalty-free. Throttling and
/// transport failures keep the request running and penalize the adapter.
/// A protocol anomaly keeps the request running without a health penalty.
pub open spec fn record_outcome_rel(
    pre: FailoverExecution,
    hpre: HealthTracker,
    adapter_id: u64,
    outcome: Outcome,
    now_ms: u64,
    post: FailoverExecution,
    hpost: HealthTracker,
) -> bool {
    match outcome {
        Outcome::Success(resp) => {
            &&& same_static(pre, post)
            &&& post.excluded == pre.excluded
            &&& post.attempts == pre.attempts
            &&& post.best_error == pre.best_error
            &&& post.result == Some(Result::<ProxyResponse, RpcError>::Ok(resp))
            &&& health_success_rel(hpre, hpost, adapter_id, pre.chain_id@)
        },
        Outcome::ChainNotFound => {
            &&& finished_with_error(pre, post, RpcError::ChainNotFound)
            &&& hpost == hpre
        },
        Outcome::Throttled => {
            &&& still_retrying(pre, post, RpcError::Throttled)
            &&& health_failure_rel(hpre, hpost, adapter_id, pre.chain_id@, now_ms)
        },
        Outcome::TransportError => {
            &&& still_retrying(pre, post, RpcError::TransportError)
            &&& health_failure_rel(hpre, hpost, adapter_id, pre.chain_id@, now_ms)
        },
        Outcome::UpstreamProtocolError => {
            &&& still_retrying(pre, post, RpcError::UpstreamProtocolError)
            &&& hpost == hpre
        },
    }
}

/// For a chain id absent from the registry, a request resolved against that
/// registry finishes with `ChainNotFound` at its very first step: no adapter
/// is ever offered for invocation, and no attempt is counted.
pub proof fn lemma_unknown_chain_rejected(
    registry: ProviderRegistry,
    chain: Seq<char>,
    e0: FailoverExecution,
    h: HealthTracker,
    now_ms: u64,
    rnd: u64,
    e1: FailoverExecution,
    r: Option<u64>,
)
    requires
        registry.wf(),
        !registry.spec_has_chain(norm_chain_id(chain)),
        e0.candidates@ == registry.spec_candidates(norm_chain_id(chain)),
        next_attempt_rel(e0, h, now_ms, rnd, e1, r),
    ensures
        r is None,
        e1.result == Some(Result::<ProxyResponse, RpcError>::Err(RpcError::ChainNotFound)),
        e1.attempts == e0.attempts,
{
    assert(e0.candidates@.len() == 0);
}

/// If the sole candidate is healthy but returns `Throttled`, and no other
/// candidate exists, the request terminates after exactly one attempt with
/// `Throttled`.
pub proof fn lemma_sole_candidate_throttled(
    e0: FailoverExecution,
    h0: HealthTracker,
    now0: u64,
    rnd0: u64,
    e1: FailoverExecution,
    r1: Option<u64>,
    now1: u64,
    e2: FailoverExecution,
    h1: HealthTracker,
    now2: u64,
    rnd2: u64,
    e3: FailoverExecution,
    r2: Option<u64>,
)
    requires
        e0.candidates@.len() == 1,
        e0.excluded@ == Seq::<u64>::empty(),
        e0.attempts == 0,
        e0.max_attempts >= 1,
        e0.best_error is None,
        e0.result is None,
        h0.spec_is_healthy(e0.candidates@[0].adapter_id, e0.chain_id@, now0),
        next_attempt_rel(e0, h0, now0, rnd0, e1, r1),
        record_outcome_rel(
            e1,
            h0,
            e0.candidates@[0].adapter_id,
            Outcome::Throttled,
            now1,
            e2,
            h1,
        ),
        next_attempt_rel(e2, h1, now2, rnd2, e3, r2),
    ensures
        r1 == Some(e0.candidates@[0].adapter_id),
        e1.attempts == 1,
        r2 is None,
        e3.result == Some(Result::<ProxyResponse, RpcError>::Err(RpcError::Throttled)),
        e3.attempts == 1,
{
    let c = e0.candidates@;
    let chain = e0.chain_id@;
    assert(e0.spec_budget() == 1);
    let sel = choose|sel: Option<int>|
        {
            &&& #[trigger] selection_ok(c, e0.excluded@, h0, chain, now0, rnd0, sel)
            &&& match sel {
                None => {
                    &&& r1 is None
                    &&& finished_with_error(e0, e1, spec_exhaust_error(e0.best_error))
                },
                Some(i) => {
                    &&& r1 == Some(c[i].adapter_id)
                    &&& same_static(e0, e1)
                    &&& e1.excluded@ == e0.excluded@.push(c[i].adapter_id)
                    &&& e1.attempts == e0.attempts + 1
                    &&& e1.best_error == e0.best_error
                    &&& e1.result is None
                },
            }
        };
    assert(spec_eligible(c, e0.excluded@, h0, chain, now0, 0)) by {
        if e0.excluded@.contains(c[0].adapter_id) {
            let k = choose|k: int|
                0 <= k < e0.excluded@.len() && e0.excluded@[k] == c[0].adapter_id;
        }
    }
    assert(eligible_count_prefix(c, e0.excluded@, h0, chain, now0, 0) == 0);
    assert(eligible_count_prefix(c, e0.excluded@, h0, chain, now0, 1) == 1);
    if sel is None {
        assert(false);
    }
    let i = sel->0;
    assert(i == 0);
    assert(e2.attempts == 1 && e2.spec_budget() == 1);
    assert(e2.best_error == spec_merge_best(None, RpcError::Throttled));
    assert(spec_exhaust_error(e2.best_error) == RpcError::Throttled);
}

/// If three candidates exist and the first two picked return
/// `TransportError` while the third returns `Success`, the request makes
/// exactly three attempts — each against a different adapter — and returns
/// the success verbatim. The health tracker marks exactly the two failed
/// adapters as unhealthy: each is backing off at the moment its failure was
/// recorded, the succeeding adapter is healthy at every time, and every other
/// adapter's state for this chain is untouched.
pub proof fn lemma_two_transport_failures_then_success(
    e0: FailoverExecution,
    h0: HealthTracker,
    now0: u64,
    rnd0: u64,
    e1: FailoverExecution,
    a1: u64,
    now1: u64,
    e2: FailoverExecution,
    h1: HealthTracker,
    now2: u64,
    rnd2: u64,
    e3: FailoverExecution,
    a2: u64,
    now3: u64,
    e4: FailoverExecution,
    h2: HealthTracker,
    now4: u64,
    rnd4: u64,
    e5: FailoverExecution,
    a3: u64,
    now5: u64,
    e6: FailoverExecution,
    h3: HealthTracker,
    resp: ProxyResponse,
)
    requires
        e0.candidates@.len() == 3,
        e0.excluded@ == Seq::<u64>::empty(),
        e0.attempts == 0,
        e0.max_attempts >= 3,
        e0.best_error is None,
        e0.result is None,
        now1 < u64::MAX,
        now3 < u64::MAX,
        next_attempt_rel(e0, h0, now0, rnd0, e1, Some(a1)),
        record_outcome_rel(e1, h0, a1, Outcome::TransportError, now1, e2, h1),
        next_attempt_rel(e2, h1, now2, rnd2, e3, Some(a2)),
        record_outcome_rel(e3, h1, a2, Outcome::TransportError, now3, e4, h2),
        next_attempt_rel(e4, h2, now4, rnd4, e5, Some(a3)),
        record_outcome_rel(e5, h2, a3, Outcome::Success(resp), now5, e6, h3),
    ensures
        e6.attempts == 3,
        e6.result == Some(Result::<ProxyResponse, RpcError>::Ok(resp)),
        a1 != a2 && a1 != a3 && a2 != a3,
        !h3.spec_is_healthy(a1, e0.chain_id@, now1),
        !h3.spec_is_healthy(a2, e0.chain_id@, now3),
        forall|t: u64| h3.spec_is_healthy(a3, e0.chain_id@, t),
        forall|a4: u64|
            a4 != a1 && a4 != a2 && a4 != a3 ==> h3.spec_has_entry(a4, e0.chain_id@)
                == h0.spec_has_entry(a4, e0.chain_id@) && h3.spec_until(a4, e0.chain_id@)
                == h0.spec_until(a4, e0.chain_id@),
{
    let c = e0.candidates@;
    let chain = e0.chain_id@;
    let sel1 = choose|sel: Option<int>|
        {
            &&& #[trigger] selection_ok(c, e0.excluded@, h0, chain, now0, rnd0, sel)
            &&& match sel {
                None => {
                    &&& Some(a1) == Option::<u64>::None
                },
                Some(i) => {
                    &&& Some(a1) == Some(c[i].adapter_id)
                    &&& same_static(e0, e1)
                    &&& e1.excluded@ == e0.excluded@.push(c[i].adapter_id)
                    &&& e1.attempts == e0.attempts + 1
                    &&& e1.best_error == e0.best_error
                    &&& e1.result is None
                },
            }
        };
    assert(sel1 is Some);
    let i1 = sel1->0;
    assert(a1 == c[i1].adapter_id);
    assert(e1.excluded@ =~= seq![a1]);
    assert(e2.excluded@ == e1.excluded@ && e2.attempts == 1 && e2.candidates == e1.candidates
        && e2.chain_id == e1.chain_id && e2.max_attempts == e1.max_attempts);
    let sel2 = choose|sel: Option<int>|
        {
            &&& #[trigger] selection_ok(e2.candidates@, e2.excluded@, h1, e2.chain_id@, now2, rnd2, sel)
            &&& match sel {
                None => {
                    &&& Some(a2) == Option::<u64>::None
                },
                Some(i) => {
                    &&& Some(a2) == Some(e2.candidates@[i].adapter_id)
                    &&& same_static(e2, e3)
                    &&& e3.excluded@ == e2.excluded@.push(e2.candidates@[i].adapter_id)
                    &&& e3.attempts == e2.attempts + 1
                    &&& e3.best_error == e2.best_error
                    &&& e3.result is None
                },
            }
        };
    assert(sel2 is Some);
    let i2 = sel2->0;
    assert(!e2.excluded@.contains(a2));
    assert(e2.excluded@[0] == a1);
    assert(a2 != a1) by {
        if a2 == a1 {
            assert(e2.excluded@.contains(a1));
        }
    }
    assert(e3.excluded@ =~= seq![a1, a2]);
    assert(e4.excluded@ == e3.excluded@ && e4.attempts == 2);
    let sel3 = choose|sel: Option<int>|
        {
            &&& #[trigger] selection_ok(e4.candidates@, e4.excluded@, h2, e4.chain_id@, now4, rnd4, sel)
            &&& match sel {
                None => {
                    &&& Some(a3) == Option::<u64>::None
                },
                Some(i) => {
                    &&& Some(a3) == Some(e4.candidates@[i].adapter_id)
                    &&& same_static(e4, e5)
                    &&& e5.excluded@ == e4.excluded@.push(e4.candidates@[i].adapter_id)
                    &&& e5.attempts == e4.attempts + 1
                    &&& e5.best_error == e4.best_error
                    &&& e5.result is None
                },
            }
        };
    assert(sel3 is Some);
    assert(!e4.excluded@.contains(a3));
    assert(e4.excluded@[0] == a1 && e4.excluded@[1] == a2);
    assert(a3 != a1 && a3 != a2) by {
        if a3 == a1 {
            assert(e4.excluded@.contains(a1));
        }
        if a3 == a2 {
            assert(e4.excluded@.contains(a2));
        }
    }
    assert(e5.attempts == 3 && e6.attempts == 3);
    assert(e2.chain_id@ == chain && e4.chain_id@ == chain && e5.chain_id@ == chain);
    assert(!h1.spec_is_healthy(a1, chain, now1));
    assert(h2.spec_until(a1, chain) == h1.spec_until(a1, chain));
    assert(!h2.spec_is_healthy(a1, chain, now1));
    assert(h3.spec_until(a1, chain) == h2.spec_until(a1, chain));
    assert(!h2.spec_is_healthy(a2, chain, now3));
    assert(h3.spec_until(a2, chain) == h2.spec_until(a2, chain));
}

} // verus!
