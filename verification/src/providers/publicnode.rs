//! The Publicnode JSON-RPC adapter: chain support, upstream URL templating
//! and rate-limit classification. The HTTP client itself lives with the HTTP
//! layer; everything the adapter decides is verified here.

use vstd::prelude::*;
use crate::chain::{lemma_norm_idempotent, norm_chain_id, normalize_chain_id};
use crate::error::RpcError;
use crate::providers::{Provider, ProviderKind};
use vstd::string::StringExecFns;

verus! {

/// The Publicnode integration: which chain id maps to which network
/// subdomain of the upstream host.
#[derive(Debug)]
pub struct PublicnodeProvider {
    pub supported_chains: Vec<(String, String)>,
}

impl PublicnodeProvider {
    /// Keys are canonical and unique.
    pub open spec fn wf(self) -> bool {
        &&& (forall|i: int|
            0 <= i < self.supported_chains@.len() ==> norm_chain_id(
                #[trigger] self.supported_chains@[i].0@,
            ) == self.supported_chains@[i].0@)
        &&& (forall|i: int, j: int|
            0 <= i < j < self.supported_chains@.len() ==> self.supported_chains@[i].0@
                != self.supported_chains@[j].0@)
    }

    /// Whether a (normalized) chain id is supported.
    pub open spec fn spec_has_chain(self, chain: Seq<char>) -> bool {
        exists|i: int|
            0 <= i < self.supported_chains@.len() && self.supported_chains@[i].0@ == chain
    }

    /// The network subdomain serving a (normalized) chain id; meaningful only
    /// when supported.
    pub open spec fn spec_network(self, chain: Seq<char>) -> Seq<char> {
        self.supported_chains@[choose|i: int|
            0 <= i < self.supported_chains@.len() && self.supported_chains@[i].0@ == chain].1@
    }

    /// A matching entry is the lookup's result: keys are unique.
    pub proof fn lemma_network_at(self, chain: Seq<char>, i: int)
        requires
            self.wf(),
            0 <= i < self.supported_chains@.len(),
            self.supported_chains@[i].0@ == chain,
        ensures
            self.spec_has_chain(chain),
            self.spec_network(chain) == self.supported_chains@[i].1@,
    {
        let j = choose|j: int|
            0 <= j < self.supported_chains@.len() && self.supported_chains@[j].0@ == chain;
        if i < j {
            assert(self.supported_chains@[i].0@ != self.supported_chains@[j].0@);
        } else if j < i {
            assert(self.supported_chains@[j].0@ != self.supported_chains@[i].0@);
        }
    }

    /// An adapter that serves no chain yet.
    pub fn new() -> (r: Self)
        ensures
            r.wf(),
            forall|c: Seq<char>| !r.spec_has_chain(c),
    {
        PublicnodeProvider { supported_chains: Vec::new() }
    }

    /// Registers one chain with the network subdomain that serves it. The id
    /// is normalized once here.
    pub fn insert_chain(&mut self, chain_id: &str, network: &str)
        requires
            old(self).wf(),
            !old(self).spec_has_chain(norm_chain_id(chain_id@)),
        ensures
            final(self).wf(),
            final(self).spec_has_chain(norm_chain_id(chain_id@)),
            final(self).spec_network(norm_chain_id(chain_id@)) == network@,
            forall|c: Seq<char>|
                c != norm_chain_id(chain_id@) ==> final(self).spec_has_chain(c) == old(
                    self,
                ).spec_has_chain(c),
    {
        let ghost pre = *self;
        proof {
            lemma_norm_idempotent(chain_id@);
        }
        let key = normalize_chain_id(chain_id);
        let net = make_owned_str(network);
        self.supported_chains.push((key, net));
        proof {
            let n = pre.supported_chains@.len() as int;
            assert forall|i: int, j: int|
                0 <= i < j < self.supported_chains@.len() implies self.supported_chains@[i].0@
                != self.supported_chains@[j].0@ by {
                if j == n {
                    if pre.supported_chains@[i].0@ == norm_chain_id(chain_id@) {
                        assert(pre.spec_has_chain(norm_chain_id(chain_id@)));
                    }
                }
            }
            self.lemma_network_at(norm_chain_id(chain_id@), n);
            assert forall|c: Seq<char>|
                c != norm_chain_id(chain_id@) implies self.spec_has_chain(c) == pre.spec_has_chain(
                c,
            ) by {
                if self.spec_has_chain(c) {
                    let i = choose|i: int|
                        0 <= i < self.supported_chains@.len() && self.supported_chains@[i].0@ == c;
                    assert(0 <= i < pre.supported_chains@.len() && pre.supported_chains@[i].0@
                        == c);
                }
                if pre.spec_has_chain(c) {
                    let i = choose|i: int|
                        0 <= i < pre.supported_chains@.len() && pre.supported_chains@[i].0@ == c;
                    assert(self.supported_chains@[i].0@ == c);
                }
            }
        }
    }

    /// The upstream URL serving a chain: its network subdomain templated into
    /// the upstream host. An unsupported chain is `ChainNotFound` — a
    /// registry-level fact that retrying cannot help.
    pub fn proxy_url(&self, chain_id: &str) -> (r: Result<String, RpcError>)
        requires
            self.wf(),
        ensures
            match r {
                Ok(u) => self.spec_has_chain(norm_chain_id(chain_id@)) && u@ == "https://"@
                    + self.spec_network(norm_chain_id(chain_id@)) + ".publicnode.com"@,
                Err(e) => e == RpcError::ChainNotFound && !self.spec_has_chain(
                    norm_chain_id(chain_id@),
                ),
            },
    {
        let key = normalize_chain_id(chain_id);
        let n = self.supported_chains.len();
        let mut i: usize = 0;
        while i < n
            invariant
                self.wf(),
                key@ == norm_chain_id(chain_id@),
                n == self.supported_chains@.len(),
                i <= n,
                forall|k: int| 0 <= k < i ==> self.supported_chains@[k].0@ != key@,
            decreases n - i,
        {
            if self.supported_chains[i].0 == key {
                proof {
                    self.lemma_network_at(key@, i as int);
                }
                let head: String = String::from_str("https://");
                let u = head.concat(self.supported_chains[i].1.as_str()).concat(
                    ".publicnode.com",
                );
                return Ok(u);
            }
            i = i + 1;
        }
        Err(RpcError::ChainNotFound)
    }
}

impl Provider for PublicnodeProvider {
    open spec fn inv(&self) -> bool {
        self.wf()
    }

    open spec fn spec_supports(&self, chain: Seq<char>) -> bool {
        self.spec_has_chain(chain)
    }

    open spec fn spec_chain_list(&self) -> Seq<Seq<char>> {
        self.supported_chains@.map_values(|p: (String, String)| p.0@)
    }

    open spec fn spec_kind(&self) -> ProviderKind {
        ProviderKind::Publicnode
    }

    /// Whether the adapter serves this chain. The query is normalized, so
    /// callers may pass either case.
    fn supports_caip_chainid(&self, chain_id: &str) -> (r: bool) {
        let key = normalize_chain_id(chain_id);
        let n = self.supported_chains.len();
        let mut i: usize = 0;
        while i < n
            invariant
                self.wf(),
                key@ == norm_chain_id(chain_id@),
                n == self.supported_chains@.len(),
                i <= n,
                forall|k: int| 0 <= k < i ==> self.supported_chains@[k].0@ != key@,
            decreases n - i,
        {
            if self.supported_chains[i].0 == key {
                return true;
            }
            i = i + 1;
        }
        false
    }

    /// The chain ids the adapter serves, in registration order.
    fn supported_caip_chains(&self) -> (r: Vec<String>) {
        let n = self.supported_chains.len();
        let mut r: Vec<String> = Vec::new();
        let mut i: usize = 0;
        while i < n
            invariant
                n == self.supported_chains@.len(),
                i <= n,
                r@.len() == i,
                forall|k: int| 0 <= k < i ==> r@[k]@ == self.supported_chains@[k].0@,
            decreases n - i,
        {
            r.push(self.supported_chains[i].0.clone());
            i = i + 1;
        }
        r
    }

    /// Which integration this adapter is.
    fn provider_kind(&self) -> (r: ProviderKind) {
        ProviderKind::Publicnode
    }
}

/// A `String` with the same characters as the given `str`.
fn make_owned_str(s: &str) -> (r: String)
    ensures
        r@ == s@,
{
    s.to_owned()
}

/// Whether an upstream status signals rate limiting.
pub fn is_rate_limited(status: u16) -> (r: bool)
    ensures
        r == (status == 429),
{
    status == 429
}

/// Classifies an upstream HTTP status: 429 is throttling, any 2xx is success,
/// anything else is a protocol anomaly. Failures to reach the upstream at all
/// are classified by the transport as `TransportError` before a status
/// exists.
pub fn classify_status(status: u16) -> (r: Option<RpcError>)
    ensures
        status == 429 ==> r == Some(RpcError::Throttled),
        status != 429 && 200 <= status < 300 ==> r is None,
        status != 429 && !(200 <= status < 300) ==> r == Some(RpcError::UpstreamProtocolError),
{
    if status == 429 {
        Some(RpcError::Throttled)
    } else if 200 <= status && status < 300 {
        None
    } else {
        Some(RpcError::UpstreamProtocolError)
    }
}

} // verus!
