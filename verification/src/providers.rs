//! Provider identities and weights.

use vstd::prelude::*;

verus! {

/// Closed enumeration of the adapter implementations. Used to label which
/// integration handled a request (analytics, logging), never for routing
/// decisions themselves.
#[derive(Clone, Copy, PartialEq, Eq, Structural, Debug)]
pub enum ProviderKind {
    Publicnode,
    ZKSync,
    Zerion,
}

/// Non-negative relative preference of one provider for one chain. `0` means
/// "never selected unless it is the only eligible candidate". Weights are
/// relative within a single chain's candidate list only.
#[derive(Clone, Copy, PartialEq, Eq, Structural, Debug)]
pub struct Weight(pub u64);

/// The uniform contract over one upstream integration: chain support queries
/// and the integration's identity. Each concrete provider implements it; the
/// proxy operation itself is transport and lives with the HTTP layer.
pub trait Provider: Sized {
    /// The invariant under which the adapter answers queries.
    spec fn inv(&self) -> bool;

    /// Whether the adapter serves this (normalized) chain id.
    spec fn spec_supports(&self, chain: Seq<char>) -> bool;

    /// The (normalized) chain ids the adapter serves, in registration order.
    spec fn spec_chain_list(&self) -> Seq<Seq<char>>;

    /// Which integration this adapter is.
    spec fn spec_kind(&self) -> ProviderKind;

    /// Whether the adapter serves the chain; queries may use either case.
    fn supports_caip_chainid(&self, chain_id: &str) -> (r: bool)
        requires
            self.inv(),
        ensures
            r == self.spec_supports(crate::chain::norm_chain_id(chain_id@)),
    ;

    /// The chain ids the adapter serves.
    fn supported_caip_chains(&self) -> (r: Vec<String>)
        requires
            self.inv(),
        ensures
            r@.len() == self.spec_chain_list().len(),
            forall|i: int| 0 <= i < r@.len() ==> r@[i]@ == self.spec_chain_list()[i],
    ;

    /// The integration's identity tag.
    fn provider_kind(&self) -> (r: ProviderKind)
        ensures
            r == self.spec_kind(),
    ;
}

} // verus!


pub mod publicnode;
pub mod zerion;
