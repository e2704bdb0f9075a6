//! Per-(adapter, chain) health tracking.
//!
//! Each throttled or transport-failed attempt increments a failure counter
//! and pushes an "unhealthy until" deadline out by an exponentially growing,
//! capped backoff window; one success clears the state immediately. An absent
//! entry means healthy, so the state is naturally self-healing once its
//! window expires. Keys are the exact (adapter id, chain id) pairs handed in;
//! the executor always hands in the canonical chain id.

use vstd::prelude::*;
use crate::error::{penalizes, spec_penalizes, RpcError};

verus! {

/// Rolling failure state of one (adapter, chain) pair.
pub struct HealthEntry {
    pub adapter_id: u64,
    pub chain_id: String,
    /// Consecutive penalized failures since the last success.
    pub failures: u32,
    /// The pair is considered unhealthy strictly before this time (ms).
    pub unhealthy_until: u64,
}

/// Whether an entry is keyed by the given pair.
pub open spec fn entry_matches(e: HealthEntry, a: u64, c: Seq<char>) -> bool {
    e.adapter_id == a && e.chain_id@ == c
}

/// Backoff window after `f` consecutive failures, for `f` already capped:
/// the base delay doubled per failure beyond the first, never above `max`.
pub open spec fn spec_backoff_rec(base: u64, max: u64, f: u32) -> u64
    decreases f,
{
    if f <= 1 {
        if base <= max {
            base
        } else {
            max
        }
    } else {
        let p = spec_backoff_rec(base, max, (f - 1) as u32);
        if p > max - p {
            max
        } else {
            (p + p) as u64
        }
    }
}

/// Backoff window after `f` consecutive failures. Beyond 64 failures the
/// window has long reached `max`, so the count is capped before doubling.
pub open spec fn spec_backoff(base: u64, max: u64, f: u32) -> u64 {
    spec_backoff_rec(base, max, if f > 64 { 64u32 } else { f })
}

/// The deadline `now + delay`, saturating at the clock's range.
pub open spec fn spec_deadline(now: u64, delay: u64) -> u64 {
    if now > u64::MAX - delay {
        u64::MAX
    } else {
        (now + delay) as u64
    }
}

/// Executable twin of [`spec_backoff_rec`].
fn backoff_rec(base: u64, max: u64, f: u32) -> (r: u64)
    requires
        1 <= base <= max,
    ensures
        r == spec_backoff_rec(base, max, f),
        1 <= r <= max,
    decreases f,
{
    if f <= 1 {
        base
    } else {
        let p = backoff_rec(base, max, f - 1);
        if p > max - p {
            max
        } else {
            p + p
        }
    }
}

/// Executable twin of [`spec_backoff`].
pub fn backoff_delay(base: u64, max: u64, f: u32) -> (r: u64)
    requires
        1 <= base <= max,
    ensures
        r == spec_backoff(base, max, f),
        1 <= r <= max,
{
    let capped = if f > 64 {
        64
    } else {
        f
    };
    backoff_rec(base, max, capped)
}

/// Mutable per-(adapter, chain) failure/backoff state. Shared across requests;
/// the process shards or locks instances per key outside this crate.
pub struct HealthTracker {
    pub entries: Vec<HealthEntry>,
    /// Backoff window of the first failure (ms).
    pub base_delay_ms: u64,
    /// Ceiling of the backoff window (ms).
    pub max_delay_ms: u64,
}

impl HealthTracker {
    /// Delays are positive and each key occurs at most once.
    pub open spec fn wf(self) -> bool {
        &&& 1 <= self.base_delay_ms <= self.max_delay_ms
        &&& (forall|i: int, j: int|
            0 <= i < j < self.entries@.len() ==> !(self.entries@[i].adapter_id
                == self.entries@[j].adapter_id && self.entries@[i].chain_id@
                == self.entries@[j].chain_id@))
    }

    /// Whether the pair has recorded state.
    pub open spec fn spec_has_entry(self, a: u64, c: Seq<char>) -> bool {
        exists|i: int| 0 <= i < self.entries@.len() && entry_matches(self.entries@[i], a, c)
    }

    /// The recorded state of the pair; meaningful only when present.
    pub open spec fn spec_entry(self, a: u64, c: Seq<char>) -> HealthEntry {
        self.entries@[choose|i: int|
            0 <= i < self.entries@.len() && entry_matches(self.entries@[i], a, c)]
    }

    /// Consecutive penalized failures recorded for the pair.
    pub open spec fn spec_failures(self, a: u64, c: Seq<char>) -> u32 {
        if self.spec_has_entry(a, c) {
            self.spec_entry(a, c).failures
        } else {
            0
        }
    }

    /// The pair's backoff deadline; a pair without state has none.
    pub open spec fn spec_until(self, a: u64, c: Seq<char>) -> u64 {
        if self.spec_has_entry(a, c) {
            self.spec_entry(a, c).unhealthy_until
        } else {
            0
        }
    }

    /// A pair is healthy once its backoff deadline has passed (or was never
    /// set).
    pub open spec fn spec_is_healthy(self, a: u64, c: Seq<char>, now_ms: u64) -> bool {
        self.spec_until(a, c) <= now_ms
    }

    /// An entry that matches the key is the lookup's result: keys are unique.
    pub proof fn lemma_entry_at(self, a: u64, c: Seq<char>, i: int)
        requires
            self.wf(),
            0 <= i < self.entries@.len(),
            entry_matches(self.entries@[i], a, c),
        ensures
            self.spec_has_entry(a, c),
            self.spec_entry(a, c) == self.entries@[i],
    {
        let j = choose|j: int|
            0 <= j < self.entries@.len() && entry_matches(self.entries@[j], a, c);
        if i < j {
            assert(!(self.entries@[i].adapter_id == self.entries@[j].adapter_id
                && self.entries@[i].chain_id@ == self.entries@[j].chain_id@));
        } else if j < i {
            assert(!(self.entries@[j].adapter_id == self.entries@[i].adapter_id
                && self.entries@[j].chain_id@ == self.entries@[i].chain_id@));
        }
    }

    /// A fresh tracker: every pair is healthy.
    pub fn new(base_delay_ms: u64, max_delay_ms: u64) -> (r: Self)
        requires
            1 <= base_delay_ms <= max_delay_ms,
        ensures
            r.wf(),
            r.base_delay_ms == base_delay_ms,
            r.max_delay_ms == max_delay_ms,
            forall|a: u64, c: Seq<char>| !r.spec_has_entry(a, c),
            forall|a: u64, c: Seq<char>, t: u64| r.spec_is_healthy(a, c, t),
    {
        HealthTracker { entries: Vec::new(), base_delay_ms, max_delay_ms }
    }

    /// Whether the pair may be offered to the selector right now. Reading has
    /// no side effect, so repeated queries at one time agree.
    pub fn is_healthy(&self, adapter_id: u64, chain_id: &str, now_ms: u64) -> (r: bool)
        requires
            self.wf(),
        ensures
            r == self.spec_is_healthy(adapter_id, chain_id@, now_ms),
    {
        let key = make_owned(chain_id);
        let n = self.entries.len();
        let mut i: usize = 0;
        while i < n
            invariant
                self.wf(),
                key@ == chain_id@,
                n == self.entries@.len(),
                i <= n,
                forall|k: int|
                    0 <= k < i ==> !entry_matches(self.entries@[k], adapter_id, chain_id@),
            decreases n - i,
        {
            if self.entries[i].adapter_id == adapter_id && self.entries[i].chain_id == key {
                proof {
                    self.lemma_entry_at(adapter_id, chain_id@, i as int);
                }
                return self.entries[i].unhealthy_until <= now_ms;
            }
            i = i + 1;
        }
        proof {
            assert(!self.spec_has_entry(adapter_id, chain_id@));
        }
        true
    }

    /// Clears the pair's failure count and backoff window: afterwards the
    /// pair is healthy at every time, regardless of its prior failure count.
    pub fn record_success(&mut self, adapter_id: u64, chain_id: &str)
        requires
            old(self).wf(),
        ensures
            final(self).wf(),
            final(self).base_delay_ms == old(self).base_delay_ms,
            final(self).max_delay_ms == old(self).max_delay_ms,
            forall|t: u64| final(self).spec_is_healthy(adapter_id, chain_id@, t),
            final(self).spec_failures(adapter_id, chain_id@) == 0,
            forall|a2: u64, c2: Seq<char>|
                !(a2 == adapter_id && c2 == chain_id@) ==> final(self).spec_has_entry(a2, c2)
                    == old(self).spec_has_entry(a2, c2) && final(self).spec_failures(a2, c2)
                    == old(self).spec_failures(a2, c2) && final(self).spec_until(a2, c2) == old(
                    self,
                ).spec_until(a2, c2),
    {
        let ghost pre = *self;
        let key = make_owned(chain_id);
        let n = self.entries.len();
        let mut i: usize = 0;
        while i < n
            invariant
                self.wf(),
                *self == pre,
                pre == *old(self),
                key@ == chain_id@,
                n == self.entries@.len(),
                i <= n,
                forall|k: int|
                    0 <= k < i ==> !entry_matches(self.entries@[k], adapter_id, chain_id@),
            decreases n - i,
        {
            if self.entries[i].adapter_id == adapter_id && self.entries[i].chain_id == key {
                let cleared = HealthEntry {
                    adapter_id,
                    chain_id: make_owned(chain_id),
                    failures: 0,
                    unhealthy_until: 0,
                };
                self.entries[i] = cleared;
                proof {
                    self.lemma_after_update(pre, i as int, adapter_id, chain_id@);
                }
                return ;
            }
            i = i + 1;
        }
        proof {
            assert(!self.spec_has_entry(adapter_id, chain_id@));
        }
    }

    /// Records one classified failure. A throttled or transport failure
    /// increments the pair's counter and pushes the backoff deadline out
    /// exponentially (capped); any other kind leaves the tracker unchanged.
    pub fn record_failure(&mut self, adapter_id: u64, chain_id: &str, kind: RpcError, now_ms: u64)
        requires
            old(self).wf(),
        ensures
            final(self).wf(),
            final(self).base_delay_ms == old(self).base_delay_ms,
            final(self).max_delay_ms == old(self).max_delay_ms,
            !spec_penalizes(kind) ==> *final(self) == *old(self),
            spec_penalizes(kind) ==> final(self).spec_failures(adapter_id, chain_id@)
                == spec_bump(old(self).spec_failures(adapter_id, chain_id@)),
            spec_penalizes(kind) ==> final(self).spec_has_entry(adapter_id, chain_id@)
                && final(self).spec_until(adapter_id, chain_id@) == spec_deadline(
                now_ms,
                spec_backoff(
                    old(self).base_delay_ms,
                    old(self).max_delay_ms,
                    spec_bump(old(self).spec_failures(adapter_id, chain_id@)),
                ),
            ),
            spec_penalizes(kind) && now_ms < u64::MAX ==> !final(self).spec_is_healthy(
                adapter_id,
                chain_id@,
                now_ms,
            ),
            spec_penalizes(kind) ==> forall|a2: u64, c2: Seq<char>|
                !(a2 == adapter_id && c2 == chain_id@) ==> final(self).spec_has_entry(a2, c2)
                    == old(self).spec_has_entry(a2, c2) && final(self).spec_failures(a2, c2)
                    == old(self).spec_failures(a2, c2) && final(self).spec_until(a2, c2) == old(
                    self,
                ).spec_until(a2, c2),
    {
        if !penalizes(kind) {
            return ;
        }
        let ghost pre = *self;
        let key = make_owned(chain_id);
        let n = self.entries.len();
        let mut i: usize = 0;
        while i < n
            invariant
                self.wf(),
                *self == pre,
                pre == *old(self),
                spec_penalizes(kind),
                key@ == chain_id@,
                n == self.entries@.len(),
                i <= n,
                forall|k: int|
                    0 <= k < i ==> !entry_matches(self.entries@[k], adapter_id, chain_id@),
            decreases n - i,
        {
            if self.entries[i].adapter_id == adapter_id && self.entries[i].chain_id == key {
                proof {
                    self.lemma_entry_at(adapter_id, chain_id@, i as int);
                }
                let f = bump(self.entries[i].failures);
                let delay = backoff_delay(self.base_delay_ms, self.max_delay_ms, f);
                let until = saturating_deadline(now_ms, delay);
                let updated = HealthEntry {
                    adapter_id,
                    chain_id: make_owned(chain_id),
                    failures: f,
                    unhealthy_until: until,
                };
                self.entries[i] = updated;
                proof {
                    self.lemma_after_update(pre, i as int, adapter_id, chain_id@);
                }
                return ;
            }
            i = i + 1;
        }
        proof {
            assert(!pre.spec_has_entry(adapter_id, chain_id@));
        }
        let delay = backoff_delay(self.base_delay_ms, self.max_delay_ms, 1);
        let until = saturating_deadline(now_ms, delay);
        let fresh = HealthEntry {
            adapter_id,
            chain_id: make_owned(chain_id),
            failures: 1,
            unhealthy_until: until,
        };
        self.entries.push(fresh);
        proof {
            let m = pre.entries@.len() as int;
            assert forall|i2: int, j2: int|
                0 <= i2 < j2 < self.entries@.len() implies !(self.entries@[i2].adapter_id
                == self.entries@[j2].adapter_id && self.entries@[i2].chain_id@
                == self.entries@[j2].chain_id@) by {
                if j2 == m {
                    if entry_matches(pre.entries@[i2], adapter_id, chain_id@) {
                        assert(pre.spec_has_entry(adapter_id, chain_id@));
                    }
                }
            }
            self.lemma_entry_at(adapter_id, chain_id@, m);
            assert forall|a2: u64, c2: Seq<char>|
                !(a2 == adapter_id && c2 == chain_id@) implies self.spec_has_entry(a2, c2)
                == pre.spec_has_entry(a2, c2) && self.spec_failures(a2, c2) == pre.spec_failures(
                a2,
                c2,
            ) && self.spec_until(a2, c2) == pre.spec_until(a2, c2) by {
                if pre.spec_has_entry(a2, c2) {
                    let k = choose|k: int|
                        0 <= k < pre.entries@.len() && entry_matches(pre.entries@[k], a2, c2);
                    pre.lemma_entry_at(a2, c2, k);
                    self.lemma_entry_at(a2, c2, k);
                } else {
                    if self.spec_has_entry(a2, c2) {
                        let k = choose|k: int|
                            0 <= k < self.entries@.len() && entry_matches(
                                self.entries@[k],
                                a2,
                                c2,
                            );
                        assert(k != m);
                        assert(entry_matches(pre.entries@[k], a2, c2));
                    }
                }
            }
        }
    }

    /// Replacing the entry at `i` by one with the same key changes no other
    /// key's state.
    proof fn lemma_after_update(self, pre: HealthTracker, i: int, a: u64, c: Seq<char>)
        requires
            pre.wf(),
            0 <= i < pre.entries@.len(),
            entry_matches(pre.entries@[i], a, c),
            self.entries@.len() == pre.entries@.len(),
            entry_matches(self.entries@[i], a, c),
            forall|k: int| 0 <= k < pre.entries@.len() && k != i ==> self.entries@[k] == pre.entries@[k],
            self.base_delay_ms == pre.base_delay_ms,
            self.max_delay_ms == pre.max_delay_ms,
        ensures
            self.wf(),
            self.spec_has_entry(a, c),
            self.spec_entry(a, c) == self.entries@[i],
            forall|a2: u64, c2: Seq<char>|
                !(a2 == a && c2 == c) ==> self.spec_has_entry(a2, c2) == pre.spec_has_entry(a2, c2)
                    && self.spec_failures(a2, c2) == pre.spec_failures(a2, c2) && self.spec_until(
                    a2,
                    c2,
                ) == pre.spec_until(a2, c2),
    {
        assert forall|i2: int, j2: int|
            0 <= i2 < j2 < self.entries@.len() implies !(self.entries@[i2].adapter_id
            == self.entries@[j2].adapter_id && self.entries@[i2].chain_id@
            == self.entries@[j2].chain_id@) by {
            assert(!(pre.entries@[i2].adapter_id == pre.entries@[j2].adapter_id
                && pre.entries@[i2].chain_id@ == pre.entries@[j2].chain_id@));
        }
        self.lemma_entry_at(a, c, i);
        assert forall|a2: u64, c2: Seq<char>|
            !(a2 == a && c2 == c) implies self.spec_has_entry(a2, c2) == pre.spec_has_entry(a2, c2)
            && self.spec_failures(a2, c2) == pre.spec_failures(a2, c2) && self.spec_until(a2, c2)
            == pre.spec_until(a2, c2) by {
            if pre.spec_has_entry(a2, c2) {
                let k = choose|k: int|
                    0 <= k < pre.entries@.len() && entry_matches(pre.entries@[k], a2, c2);
                pre.lemma_entry_at(a2, c2, k);
                assert(k != i);
                self.lemma_entry_at(a2, c2, k);
            } else {
                if self.spec_has_entry(a2, c2) {
                    let k = choose|k: int|
                        0 <= k < self.entries@.len() && entry_matches(self.entries@[k], a2, c2);
                    assert(k != i);
                    assert(entry_matches(pre.entries@[k], a2, c2));
                }
            }
        }
    }
}

/// One more consecutive failure, saturating at the counter's range.
pub open spec fn spec_bump(f: u32) -> u32 {
    if f < u32::MAX {
        (f + 1) as u32
    } else {
        u32::MAX
    }
}

/// Executable twin of [`spec_bump`].
fn bump(f: u32) -> (r: u32)
    ensures
        r == spec_bump(f),
{
    if f < u32::MAX {
        f + 1
    } else {
        u32::MAX
    }
}

/// Executable twin of [`spec_deadline`].
fn saturating_deadline(now: u64, delay: u64) -> (r: u64)
    ensures
        r == spec_deadline(now, delay),
{
    if now > u64::MAX - delay {
        u64::MAX
    } else {
        now + delay
    }
}

/// A `String` with the same characters as the given `str`.
fn make_owned(s: &str) -> (r: String)
    ensures
        r@ == s@,
{
    s.to_owned()
}

/// Health queries are read-only: two queries of the same tracker for the same
/// pair at the same time always agree, however often they are repeated.
pub proof fn lemma_is_healthy_idempotent(
    h: HealthTracker,
    a: u64,
    c: Seq<char>,
    now_ms: u64,
    r1: bool,
    r2: bool,
)
    requires
        r1 == h.spec_is_healthy(a, c, now_ms),
        r2 == h.spec_is_healthy(a, c, now_ms),
    ensures
        r1 == r2,
{
}

} // verus!
