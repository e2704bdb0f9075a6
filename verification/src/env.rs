//! Static provider configuration, one module per integration.

use vstd::prelude::*;
use crate::providers::{ProviderKind, Weight};

verus! {

/// The uniform contract over one integration's static configuration: which
/// chains it serves, each with its upstream endpoint and selection weight,
/// and which integration the configuration belongs to.
pub trait ProviderConfig: Sized {
    /// The configured chain table.
    spec fn spec_chains(&self) -> Seq<(String, (String, Weight))>;

    /// Which integration this configuration belongs to.
    spec fn spec_kind(&self) -> ProviderKind;

    /// The configured chains, keyed by chain id.
    fn supported_chains(&self) -> (r: &Vec<(String, (String, Weight))>)
        ensures
            r@ == self.spec_chains(),
    ;

    /// The integration's identity tag.
    fn provider_kind(&self) -> (r: ProviderKind)
        ensures
            r == self.spec_kind(),
    ;
}

} // verus!

pub mod zksync;
