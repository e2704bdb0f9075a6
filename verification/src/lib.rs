//! Provider routing core for a chain-tagged JSON-RPC gateway.
//!
//! The crate models the pure routing logic of a gateway that forwards each
//! request, tagged with a CAIP-2 chain id, to one of several weighted upstream
//! providers: chain-id normalization, the provider registry, per-provider
//! health tracking with exponential backoff, weighted random selection, the
//! failover state machine that drives attempts, and the history paginator that
//! maps upstream pagination links to opaque cursors. Network transport lives
//! outside this crate; the routing decisions here are verified.

pub mod analytics;
pub mod chain;
pub mod env;
pub mod error;
pub mod executor;
pub mod handlers;
pub mod health;
pub mod json_rpc;
pub mod providers;
pub mod registry;
pub mod selector;
