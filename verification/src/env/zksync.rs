//! Static configuration of the zkSync integration.

use vstd::prelude::*;
use crate::env::ProviderConfig;
use crate::providers::{ProviderKind, Weight};

verus! {

/// What the default zkSync configuration holds: the testnet and mainnet
/// chains, each with its upstream endpoint and weight one.
pub open spec fn spec_default_zksync_chains(s: Seq<(String, (String, Weight))>) -> bool {
    &&& s.len() == 2
    &&& s[0].0@ == "eip155:280"@
    &&& s[0].1.0@ == "https://zksync2-testnet.zksync.dev"@
    &&& s[0].1.1 == Weight(1)
    &&& s[1].0@ == "eip155:324"@
    &&& s[1].1.0@ == "https://zksync2-mainnet.zksync.io"@
    &&& s[1].1.1 == Weight(1)
}

/// The chains the zkSync integration serves by default, keyed by chain id:
/// the endpoint serving the chain and its selection weight.
pub fn default_supported_chains() -> (r: Vec<(String, (String, Weight))>)
    ensures
        spec_default_zksync_chains(r@),
{
    let mut r: Vec<(String, (String, Weight))> = Vec::new();
    r.push(
        (
            String::from_str("eip155:280"),
            (String::from_str("https://zksync2-testnet.zksync.dev"), Weight(1)),
        ),
    );
    r.push(
        (
            String::from_str("eip155:324"),
            (String::from_str("https://zksync2-mainnet.zksync.io"), Weight(1)),
        ),
    );
    r
}

/// The zkSync integration's configuration: which chains it serves, with the
/// endpoint and weight of each.
#[derive(Debug)]
pub struct ZKSyncConfig {
    pub supported_chains: Vec<(String, (String, Weight))>,
}

impl ProviderConfig for ZKSyncConfig {
    open spec fn spec_chains(&self) -> Seq<(String, (String, Weight))> {
        self.supported_chains@
    }

    open spec fn spec_kind(&self) -> ProviderKind {
        ProviderKind::ZKSync
    }

    /// The configured chains.
    fn supported_chains(&self) -> (r: &Vec<(String, (String, Weight))>) {
        &self.supported_chains
    }

    /// Which integration this configuration belongs to.
    fn provider_kind(&self) -> (r: ProviderKind) {
        ProviderKind::ZKSync
    }
}

impl Default for ZKSyncConfig {
    /// The stock configuration: the default zkSync chains.
    fn default() -> (r: Self)
        ensures
            spec_default_zksync_chains(r.supported_chains@),
    {
        ZKSyncConfig { supported_chains: default_supported_chains() }
    }
}

} // verus!
