//! The analytics event built from one completed request's metadata. The core
//! only builds the value; the emitter that persists it takes ownership
//! immediately and the core keeps no copy.

use vstd::prelude::*;
use crate::chain::{norm_chain_id, normalize_chain_id};
use crate::handlers::RpcQueryParams;
use crate::json_rpc::JsonRpcRequest;

verus! {

/// One request's analytics record.
#[derive(Debug, Clone)]
pub struct MessageInfo {
    /// When the request completed, as epoch milliseconds; the emitter formats
    /// and stores it.
    pub timestamp_ms: i64,
    pub project_id: String,
    /// The request's chain id, canonical.
    pub chain_id: String,
    /// The JSON-RPC method name.
    pub method: String,
    /// The caller's address, already rendered by the HTTP layer.
    pub sender: Option<String>,
    pub country: Option<String>,
    pub continent: Option<String>,
}

impl MessageInfo {
    /// Builds the event for one completed request. The clock is injected: the
    /// HTTP layer reads it once when the request finishes.
    pub fn new(
        query_params: &RpcQueryParams,
        request: &JsonRpcRequest,
        timestamp_ms: i64,
        sender: Option<String>,
        country: Option<String>,
        continent: Option<String>,
    ) -> (r: Self)
        ensures
            r.timestamp_ms == timestamp_ms,
            r.project_id@ == query_params.project_id@,
            r.chain_id@ == norm_chain_id(query_params.chain_id@),
            r.method@ == request.method@,
            r.sender == sender,
            r.country == country,
            r.continent == continent,
    {
        MessageInfo {
            timestamp_ms,
            project_id: query_params.project_id.clone(),
            chain_id: normalize_chain_id(query_params.chain_id.as_str()),
            method: request.method.clone(),
            sender,
            country,
            continent,
        }
    }
}

} // verus!
