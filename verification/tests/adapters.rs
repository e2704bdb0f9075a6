use rpc_gateway::analytics::message_info::MessageInfo;
use rpc_gateway::chain::normalize_chain_id;
use rpc_gateway::env::zksync::{default_supported_chains, ZKSyncConfig};
use rpc_gateway::env::ProviderConfig;
use rpc_gateway::error::RpcError;
use rpc_gateway::handlers::RpcQueryParams;
use rpc_gateway::json_rpc::JsonRpcRequest;
use rpc_gateway::providers::publicnode::{classify_status, is_rate_limited, PublicnodeProvider};
use rpc_gateway::providers::Provider;
use rpc_gateway::providers::{ProviderKind, Weight};

#[test]
fn chain_ids_normalize_to_ascii_lowercase() {
    assert_eq!(normalize_chain_id("EIP155:1"), "eip155:1");
    assert_eq!(normalize_chain_id("eip155:1"), "eip155:1");
    assert_eq!(normalize_chain_id("Cosmos:Hub-4"), "cosmos:hub-4");
    assert_eq!(normalize_chain_id(""), "");
}

#[test]
fn default_zksync_chains_are_the_two_networks() {
    let chains = default_supported_chains();
    assert_eq!(chains.len(), 2);
    assert_eq!(chains[0].0, "eip155:280");
    assert_eq!(chains[0].1 .0, "https://zksync2-testnet.zksync.dev");
    assert_eq!(chains[0].1 .1, Weight(1));
    assert_eq!(chains[1].0, "eip155:324");
    assert_eq!(chains[1].1 .0, "https://zksync2-mainnet.zksync.io");
    assert_eq!(chains[1].1 .1, Weight(1));
}

#[test]
fn zksync_config_defaults_and_kind() {
    let config = ZKSyncConfig::default();
    assert_eq!(config.supported_chains().len(), 2);
    assert_eq!(config.provider_kind(), ProviderKind::ZKSync);
}

#[test]
fn publicnode_supports_registered_chains() {
    let mut p = PublicnodeProvider::new();
    p.insert_chain("eip155:1", "ethereum");
    p.insert_chain("EIP155:56", "bsc");
    assert!(p.supports_caip_chainid("eip155:1"));
    assert!(p.supports_caip_chainid("EIP155:1"));
    assert!(p.supports_caip_chainid("eip155:56"));
    assert!(!p.supports_caip_chainid("eip155:2"));
    assert_eq!(p.provider_kind(), ProviderKind::Publicnode);
    let chains = p.supported_caip_chains();
    assert_eq!(chains, vec!["eip155:1".to_string(), "eip155:56".to_string()]);
}

#[test]
fn publicnode_templates_the_upstream_url() {
    let mut p = PublicnodeProvider::new();
    p.insert_chain("eip155:1", "ethereum");
    assert_eq!(
        p.proxy_url("EIP155:1"),
        Ok("https://ethereum.publicnode.com".to_string())
    );
    assert_eq!(p.proxy_url("eip155:2"), Err(RpcError::ChainNotFound));
}

#[test]
fn status_classification() {
    assert!(is_rate_limited(429));
    assert!(!is_rate_limited(200));
    assert!(!is_rate_limited(500));
    assert_eq!(classify_status(429), Some(RpcError::Throttled));
    assert_eq!(classify_status(200), None);
    assert_eq!(classify_status(204), None);
    assert_eq!(classify_status(299), None);
    assert_eq!(classify_status(300), Some(RpcError::UpstreamProtocolError));
    assert_eq!(classify_status(404), Some(RpcError::UpstreamProtocolError));
    assert_eq!(classify_status(500), Some(RpcError::UpstreamProtocolError));
}

#[test]
fn message_info_normalizes_the_chain_id() {
    let params = RpcQueryParams {
        chain_id: "EIP155:1".to_string(),
        project_id: "proj-1".to_string(),
    };
    let request = JsonRpcRequest {
        method: "eth_blockNumber".to_string(),
    };
    let info = MessageInfo::new(
        &params,
        &request,
        1_700_000_000_000,
        Some("203.0.113.9:443".to_string()),
        Some("DE".to_string()),
        None,
    );
    assert_eq!(info.timestamp_ms, 1_700_000_000_000);
    assert_eq!(info.project_id, "proj-1");
    assert_eq!(info.chain_id, "eip155:1");
    assert_eq!(info.method, "eth_blockNumber");
    assert_eq!(info.sender, Some("203.0.113.9:443".to_string()));
    assert_eq!(info.country, Some("DE".to_string()));
    assert_eq!(info.continent, None);
}
