//! Weighted random selection among a chain's candidates.
//!
//! Candidates that were already tried this request (excluded) or are
//! currently unhealthy are filtered out. Each remaining candidate's weight is
//! an interval length; a uniform random point in `[0, sum)` picks the
//! candidate whose interval contains it. If every remaining candidate has
//! weight `0`, the choice falls back to uniform among them, so zero-weight
//! providers are never starved when they are the only option. The random
//! point is injected, so callers (and tests) control the distribution.

use vstd::prelude::*;
use crate::health::HealthTracker;
use crate::registry::{weight_sum, CandidateBinding};

verus! {

/// A candidate is eligible when it was not tried yet this request and its
/// (adapter, chain) pair is currently healthy.
pub open spec fn spec_eligible(
    cands: Seq<CandidateBinding>,
    excl: Seq<u64>,
    h: HealthTracker,
    chain: Seq<char>,
    now_ms: u64,
    i: int,
) -> bool {
    &&& !excl.contains(cands[i].adapter_id)
    &&& h.spec_is_healthy(cands[i].adapter_id, chain, now_ms)
}

/// Sum of the weights of the eligible candidates among the first `n`.
pub open spec fn eligible_weight_prefix(
    cands: Seq<CandidateBinding>,
    excl: Seq<u64>,
    h: HealthTracker,
    chain: Seq<char>,
    now_ms: u64,
    n: int,
) -> int
    decreases n,
{
    if n <= 0 {
        0
    } else {
        eligible_weight_prefix(cands, excl, h, chain, now_ms, n - 1) + (if spec_eligible(
            cands,
            excl,
            h,
            chain,
            now_ms,
            n - 1,
        ) {
            cands[n - 1].weight.0 as int
        } else {
            0
        })
    }
}

/// Number of eligible candidates among the first `n`.
pub open spec fn eligible_count_prefix(
    cands: Seq<CandidateBinding>,
    excl: Seq<u64>,
    h: HealthTracker,
    chain: Seq<char>,
    now_ms: u64,
    n: int,
) -> int
    decreases n,
{
    if n <= 0 {
        0
    } else {
        eligible_count_prefix(cands, excl, h, chain, now_ms, n - 1) + (if spec_eligible(
            cands,
            excl,
            h,
            chain,
            now_ms,
            n - 1,
        ) {
            1int
        } else {
            0
        })
    }
}

/// The eligible weight of a prefix never exceeds the plain weight sum, and
/// both prefix measures grow monotonically.
pub proof fn lemma_prefix_bounds(
    cands: Seq<CandidateBinding>,
    excl: Seq<u64>,
    h: HealthTracker,
    chain: Seq<char>,
    now_ms: u64,
    n: int,
)
    ensures
        0 <= eligible_count_prefix(cands, excl, h, chain, now_ms, n),
        0 <= eligible_weight_prefix(cands, excl, h, chain, now_ms, n) <= weight_sum(cands, n),
    decreases n,
{
    if n > 0 {
        lemma_prefix_bounds(cands, excl, h, chain, now_ms, n - 1);
    }
}

/// Prefix measures are monotone in the prefix length.
pub proof fn lemma_prefix_mono(
    cands: Seq<CandidateBinding>,
    excl: Seq<u64>,
    h: HealthTracker,
    chain: Seq<char>,
    now_ms: u64,
    i: int,
    j: int,
)
    requires
        i <= j,
    ensures
        eligible_weight_prefix(cands, excl, h, chain, now_ms, i) <= eligible_weight_prefix(
            cands,
            excl,
            h,
            chain,
            now_ms,
            j,
        ),
        eligible_count_prefix(cands, excl, h, chain, now_ms, i) <= eligible_count_prefix(
            cands,
            excl,
            h,
            chain,
            now_ms,
            j,
        ),
    decreases j - i,
{
    if i < j {
        lemma_prefix_mono(cands, excl, h, chain, now_ms, i, j - 1);
    }
}

/// What the selector's answer means. `r` is `None` exactly when no candidate
/// is eligible. Otherwise the picked index is eligible and is determined by
/// the injected random point: when some eligible weight is positive, it is
/// the candidate whose weight interval contains `rnd % total`; when every
/// eligible weight is zero, it is the `rnd % count`-th eligible candidate.
pub open spec fn selection_ok(
    cands: Seq<CandidateBinding>,
    excl: Seq<u64>,
    h: HealthTracker,
    chain: Seq<char>,
    now_ms: u64,
    rnd: u64,
    r: Option<int>,
) -> bool {
    let m = cands.len() as int;
    let total = eligible_weight_prefix(cands, excl, h, chain, now_ms, m);
    let cnt = eligible_count_prefix(cands, excl, h, chain, now_ms, m);
    match r {
        None => cnt == 0,
        Some(i) => {
            &&& 0 <= i < m
            &&& spec_eligible(cands, excl, h, chain, now_ms, i)
            &&& (total > 0 ==> eligible_weight_prefix(cands, excl, h, chain, now_ms, i) <= (
            rnd as int) % total < eligible_weight_prefix(cands, excl, h, chain, now_ms, i)
                + cands[i].weight.0)
            &&& (total == 0 ==> eligible_count_prefix(cands, excl, h, chain, now_ms, i) == (
            rnd as int) % cnt)
        },
    }
}

/// The characterization pins the choice: for one random point there is at
/// most one answer it accepts.
pub proof fn lemma_selection_deterministic(
    cands: Seq<CandidateBinding>,
    excl: Seq<u64>,
    h: HealthTracker,
    chain: Seq<char>,
    now_ms: u64,
    rnd: u64,
    r1: Option<int>,
    r2: Option<int>,
)
    requires
        selection_ok(cands, excl, h, chain, now_ms, rnd, r1),
        selection_ok(cands, excl, h, chain, now_ms, rnd, r2),
    ensures
        r1 == r2,
{
    let m = cands.len() as int;
    let total = eligible_weight_prefix(cands, excl, h, chain, now_ms, m);
    let cnt = eligible_count_prefix(cands, excl, h, chain, now_ms, m);
    lemma_prefix_bounds(cands, excl, h, chain, now_ms, m);
    match (r1, r2) {
        (Some(i), Some(j)) => {
            if i != j {
                let lo = if i < j {
                    i
                } else {
                    j
                };
                let hi = if i < j {
                    j
                } else {
                    i
                };
                if total > 0 {
                    assert(eligible_weight_prefix(cands, excl, h, chain, now_ms, lo + 1)
                        == eligible_weight_prefix(cands, excl, h, chain, now_ms, lo)
                        + cands[lo].weight.0);
                    lemma_prefix_mono(cands, excl, h, chain, now_ms, lo + 1, hi);
                    assert((rnd as int) % total < eligible_weight_prefix(
                        cands,
                        excl,
                        h,
                        chain,
                        now_ms,
                        hi,
                    ));
                } else {
                    assert(eligible_count_prefix(cands, excl, h, chain, now_ms, lo + 1)
                        == eligible_count_prefix(cands, excl, h, chain, now_ms, lo) + 1);
                    lemma_prefix_mono(cands, excl, h, chain, now_ms, lo + 1, hi);
                    assert(eligible_count_prefix(cands, excl, h, chain, now_ms, lo) < eligible_count_prefix(
                        cands,
                        excl,
                        h,
                        chain,
                        now_ms,
                        hi,
                    ));
                }
                assert(false);
            }
        },
        (Some(i), None) => {
            assert(eligible_count_prefix(cands, excl, h, chain, now_ms, i + 1)
                == eligible_count_prefix(cands, excl, h, chain, now_ms, i) + 1);
            lemma_prefix_bounds(cands, excl, h, chain, now_ms, i);
            lemma_prefix_mono(cands, excl, h, chain, now_ms, i + 1, m);
            assert(false);
        },
        (None, Some(j)) => {
            assert(eligible_count_prefix(cands, excl, h, chain, now_ms, j + 1)
                == eligible_count_prefix(cands, excl, h, chain, now_ms, j) + 1);
            lemma_prefix_bounds(cands, excl, h, chain, now_ms, j);
            lemma_prefix_mono(cands, excl, h, chain, now_ms, j + 1, m);
            assert(false);
        },
        (None, None) => {},
    }
}

/// Whether an adapter identity is in the excluded list.
fn contains_id(v: &Vec<u64>, x: u64) -> (r: bool)
    ensures
        r == v@.contains(x),
{
    let n = v.len();
    let mut i: usize = 0;
    while i < n
        invariant
            n == v@.len(),
            i <= n,
            forall|k: int| 0 <= k < i ==> v@[k] != x,
        decreases n - i,
    {
        if v[i] == x {
            return true;
        }
        i = i + 1;
    }
    false
}

/// Whether candidate `i` may be offered to this request right now.
fn eligible_at(
    cands: &Vec<CandidateBinding>,
    excluded: &Vec<u64>,
    health: &HealthTracker,
    chain_id: &str,
    now_ms: u64,
    i: usize,
) -> (r: bool)
    requires
        health.wf(),
        i < cands@.len(),
    ensures
        r == spec_eligible(cands@, excluded@, *health, chain_id@, now_ms, i as int),
{
    !contains_id(excluded, cands[i].adapter_id) && health.is_healthy(
        cands[i].adapter_id,
        chain_id,
        now_ms,
    )
}

/// Picks one candidate, or `None` exactly when no candidate is eligible.
/// See [`selection_ok`] for how the injected random point determines the
/// choice.
pub fn select(
    cands: &Vec<CandidateBinding>,
    excluded: &Vec<u64>,
    health: &HealthTracker,
    chain_id: &str,
    now_ms: u64,
    rnd: u64,
) -> (r: Option<usize>)
    requires
        health.wf(),
        weight_sum(cands@, cands@.len() as int) <= u64::MAX,
    ensures
        selection_ok(
            cands@,
            excluded@,
            *health,
            chain_id@,
            now_ms,
            rnd,
            match r {
                Some(i) => Some(i as int),
                None => None,
            },
        ),
        r matches Some(i) ==> i < cands@.len(),
{
    let n = cands.len();
    let mut total: u64 = 0;
    let mut cnt: usize = 0;
    let mut i: usize = 0;
    while i < n
        invariant
            health.wf(),
            n == cands@.len(),
            i <= n,
            weight_sum(cands@, cands@.len() as int) <= u64::MAX,
            total == eligible_weight_prefix(cands@, excluded@, *health, chain_id@, now_ms, i as int),
            cnt == eligible_count_prefix(cands@, excluded@, *health, chain_id@, now_ms, i as int),
            cnt <= i,
        decreases n - i,
    {
        if eligible_at(cands, excluded, health, chain_id, now_ms, i) {
            proof {
                lemma_prefix_bounds(cands@, excluded@, *health, chain_id@, now_ms, i as int + 1);
                crate::registry::lemma_weight_sum_mono(cands@, i as int + 1, cands@.len() as int);
            }
            total = total + cands[i].weight.0;
            cnt = cnt + 1;
        }
        i = i + 1;
    }
    if cnt == 0 {
        return None;
    }
    if total > 0 {
        let point = rnd % total;
        let mut acc: u64 = 0;
        let mut j: usize = 0;
        while j < n
            invariant
                health.wf(),
                n == cands@.len(),
                j <= n,
                weight_sum(cands@, cands@.len() as int) <= u64::MAX,
                total == eligible_weight_prefix(
                    cands@,
                    excluded@,
                    *health,
                    chain_id@,
                    now_ms,
                    n as int,
                ),
                total > 0,
                point == (rnd as int) % (total as int),
                point < total,
                acc == eligible_weight_prefix(cands@, excluded@, *health, chain_id@, now_ms, j as int),
                acc <= point,
            decreases n - j,
        {
            if eligible_at(cands, excluded, health, chain_id, now_ms, j) {
                let w = cands[j].weight.0;
                proof {
                    lemma_prefix_bounds(cands@, excluded@, *health, chain_id@, now_ms, j as int + 1);
                    lemma_prefix_mono(
                        cands@,
                        excluded@,
                        *health,
                        chain_id@,
                        now_ms,
                        j as int + 1,
                        n as int,
                    );
                }
                if point < acc + w {
                    return Some(j);
                }
                acc = acc + w;
            }
            j = j + 1;
        }
        proof {
            assert(false);
        }
        None
    } else {
        let idx = rnd % (cnt as u64);
        let mut seen: u64 = 0;
        let mut j: usize = 0;
        while j < n
            invariant
                health.wf(),
                n == cands@.len(),
                j <= n,
                cnt == eligible_count_prefix(cands@, excluded@, *health, chain_id@, now_ms, n as int),
                cnt > 0,
                idx == (rnd as int) % (cnt as int),
                idx < cnt as u64,
                seen == eligible_count_prefix(cands@, excluded@, *health, chain_id@, now_ms, j as int),
                seen <= idx,
                total == eligible_weight_prefix(
                    cands@,
                    excluded@,
                    *health,
                    chain_id@,
                    now_ms,
                    n as int,
                ),
                total == 0,
            decreases n - j,
        {
            if eligible_at(cands, excluded, health, chain_id, now_ms, j) {
                proof {
                    lemma_prefix_bounds(cands@, excluded@, *health, chain_id@, now_ms, j as int + 1);
                    lemma_prefix_mono(
                        cands@,
                        excluded@,
                        *health,
                        chain_id@,
                        now_ms,
                        j as int + 1,
                        n as int,
                    );
                }
                if seen == idx {
                    return Some(j);
                }
                seen = seen + 1;
            }
            j = j + 1;
        }
        proof {
            assert(false);
        }
        None
    }
}

} // verus!
