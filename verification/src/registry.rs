//! Provider registry: for each normalized chain id, the ordered list of
//! (adapter, weight) candidates that may serve it.
//!
//! The registry is built once at startup from static configuration and is
//! read-only afterwards; there is no add/remove API at runtime.

use vstd::prelude::*;
use crate::chain::{lemma_norm_idempotent, norm_chain_id, normalize_chain_id};
use crate::providers::Weight;

verus! {

/// One provider's participation in serving one chain.
#[derive(Clone, Copy, PartialEq, Eq, Structural, Debug)]
pub struct CandidateBinding {
    /// Identity of the adapter (an index into the process's adapter table).
    pub adapter_id: u64,
    /// Relative selection preference among this chain's candidates.
    pub weight: Weight,
}

/// Sum of the weights of the first `n` candidates.
pub open spec fn weight_sum(cands: Seq<CandidateBinding>, n: int) -> int
    decreases n,
{
    if n <= 0 {
        0
    } else {
        weight_sum(cands, n - 1) + cands[n - 1].weight.0
    }
}

/// The weight sum grows monotonically with the prefix length.
pub proof fn lemma_weight_sum_mono(cands: Seq<CandidateBinding>, i: int, j: int)
    requires
        i <= j,
    ensures
        weight_sum(cands, i) <= weight_sum(cands, j),
    decreases j - i,
{
    if i < j {
        lemma_weight_sum_mono(cands, i, j - 1);
    }
}

/// A candidate list a chain may be registered with: non-empty, with distinct
/// adapter identities; unless it is a single binding, at least one candidate
/// has weight above zero; and the weights sum within machine range.
pub open spec fn wf_candidates(cands: Seq<CandidateBinding>) -> bool {
    &&& cands.len() >= 1
    &&& (cands.len() == 1 || exists|k: int| 0 <= k < cands.len() && cands[k].weight.0 > 0)
    &&& (forall|k: int, l: int|
        0 <= k < l < cands.len() ==> cands[k].adapter_id != cands[l].adapter_id)
    &&& weight_sum(cands, cands.len() as int) <= u64::MAX
}

/// Mapping from normalized chain id to its ordered candidate list.
pub struct ProviderRegistry {
    pub entries: Vec<(String, Vec<CandidateBinding>)>,
}

impl ProviderRegistry {
    /// Every stored key is in canonical form and occurs once; every stored
    /// candidate list is well-formed.
    pub open spec fn wf(self) -> bool {
        &&& (forall|i: int|
            0 <= i < self.entries@.len() ==> norm_chain_id(#[trigger] self.entries@[i].0@)
                == self.entries@[i].0@)
        &&& (forall|i: int, j: int|
            0 <= i < j < self.entries@.len() ==> self.entries@[i].0@ != self.entries@[j].0@)
        &&& (forall|i: int|
            0 <= i < self.entries@.len() ==> wf_candidates(#[trigger] self.entries@[i].1@))
    }

    /// Whether a (normalized) chain id is registered.
    pub open spec fn spec_has_chain(self, chain: Seq<char>) -> bool {
        exists|i: int| 0 <= i < self.entries@.len() && self.entries@[i].0@ == chain
    }

    /// The candidate list registered for a (normalized) chain id; empty if the
    /// chain is unknown.
    pub open spec fn spec_candidates(self, chain: Seq<char>) -> Seq<CandidateBinding> {
        if self.spec_has_chain(chain) {
            let i = choose|i: int|
                0 <= i < self.entries@.len() && self.entries@[i].0@ == chain;
            self.entries@[i].1@
        } else {
            Seq::empty()
        }
    }

    /// An entry that matches the key is the lookup's result: keys are unique.
    pub proof fn lemma_candidates_at(self, chain: Seq<char>, i: int)
        requires
            self.wf(),
            0 <= i < self.entries@.len(),
            self.entries@[i].0@ == chain,
        ensures
            self.spec_has_chain(chain),
            self.spec_candidates(chain) == self.entries@[i].1@,
    {
        let j = choose|j: int|
            0 <= j < self.entries@.len() && self.entries@[j].0@ == chain;
        if i < j {
            assert(self.entries@[i].0@ != self.entries@[j].0@);
        } else if j < i {
            assert(self.entries@[j].0@ != self.entries@[i].0@);
        }
    }

    /// An empty registry: no chain is known.
    pub fn new() -> (r: Self)
        ensures
            r.wf(),
            forall|c: Seq<char>| !r.spec_has_chain(c),
    {
        ProviderRegistry { entries: Vec::new() }
    }

    /// Registers one chain with its candidate list. The id is normalized once
    /// here, so configuration may spell it in either case.
    pub fn add_chain(&mut self, chain_id: &str, bindings: Vec<CandidateBinding>)
        requires
            old(self).wf(),
            wf_candidates(bindings@),
            !old(self).spec_has_chain(norm_chain_id(chain_id@)),
        ensures
            final(self).wf(),
            final(self).spec_candidates(norm_chain_id(chain_id@)) == bindings@,
            final(self).spec_has_chain(norm_chain_id(chain_id@)),
            forall|c: Seq<char>|
                c != norm_chain_id(chain_id@) ==> final(self).spec_has_chain(c) == old(
                    self,
                ).spec_has_chain(c),
            forall|c: Seq<char>|
                c != norm_chain_id(chain_id@) ==> final(self).spec_candidates(c) == old(
                    self,
                ).spec_candidates(c),
    {
        let key = normalize_chain_id(chain_id);
        let ghost pre = *self;
        proof {
            lemma_norm_idempotent(chain_id@);
        }
        self.entries.push((key, bindings));
        proof {
            let n = pre.entries@.len() as int;
            assert(self.entries@ =~= pre.entries@.push(
                (key, bindings),
            ));
            assert forall|i: int, j: int|
                0 <= i < j < self.entries@.len() implies self.entries@[i].0@
                != self.entries@[j].0@ by {
                if j == n {
                    assert(self.entries@[j].0@ == norm_chain_id(chain_id@));
                    if pre.entries@[i].0@ == norm_chain_id(chain_id@) {
                        assert(pre.spec_has_chain(norm_chain_id(chain_id@)));
                    }
                }
            }
            self.lemma_candidates_at(norm_chain_id(chain_id@), n);
            assert forall|c: Seq<char>|
                c != norm_chain_id(chain_id@) implies self.spec_has_chain(c) == pre
                .spec_has_chain(c) && self.spec_candidates(c) == pre.spec_candidates(
                c,
            ) by {
                if pre.spec_has_chain(c) {
                    let i = choose|i: int|
                        0 <= i < pre.entries@.len() && pre.entries@[i].0@ == c;
                    pre.lemma_candidates_at(c, i);
                    self.lemma_candidates_at(c, i);
                } else {
                    if self.spec_has_chain(c) {
                        let i = choose|i: int|
                            0 <= i < self.entries@.len() && self.entries@[i].0@ == c;
                        assert(0 <= i < pre.entries@.len() && pre.entries@[i].0@ == c);
                    }
                }
            }
        }
    }

    /// The candidate list for a chain id, empty if the chain is unknown. The
    /// query is normalized, so callers may pass either case.
    pub fn candidates_for(&self, chain_id: &str) -> (r: Vec<CandidateBinding>)
        requires
            self.wf(),
        ensures
            r@ == self.spec_candidates(norm_chain_id(chain_id@)),
    {
        let key = normalize_chain_id(chain_id);
        let mut i: usize = 0;
        while i < self.entries.len()
            invariant
                self.wf(),
                key@ == norm_chain_id(chain_id@),
                i <= self.entries@.len(),
                forall|k: int| 0 <= k < i ==> self.entries@[k].0@ != key@,
            decreases self.entries@.len() - i,
        {
            if self.entries[i].0 == key {
                proof {
                    self.lemma_candidates_at(key@, i as int);
                }
                return clone_bindings(&self.entries[i].1);
            }
            i = i + 1;
        }
        proof {
            assert(!self.spec_has_chain(key@));
            assert(self.spec_candidates(key@) =~= Seq::<CandidateBinding>::empty());
        }
        Vec::new()
    }
}

/// A fresh copy of a candidate list.
fn clone_bindings(v: &Vec<CandidateBinding>) -> (r: Vec<CandidateBinding>)
    ensures
        r@ == v@,
{
    let mut r: Vec<CandidateBinding> = Vec::new();
    let mut i: usize = 0;
    while i < v.len()
        invariant
            i <= v@.len(),
            r@ == v@.take(i as int),
        decreases v@.len() - i,
    {
        r.push(v[i]);
        proof {
            assert(v@.take(i as int + 1) =~= v@.take(i as int).push(v@[i as int]));
        }
        i = i + 1;
    }
    proof {
        assert(v@.take(v@.len() as int) =~= v@);
    }
    r
}

/// Chain-id lookup is case-insensitive: two ids with the same canonical form
/// resolve to the identical candidate list.
pub proof fn lemma_lookup_case_insensitive(reg: ProviderRegistry, a: Seq<char>, b: Seq<char>)
    requires
        norm_chain_id(a) == norm_chain_id(b),
    ensures
        reg.spec_candidates(norm_chain_id(a)) == reg.spec_candidates(norm_chain_id(b)),
{
}

} // verus!
