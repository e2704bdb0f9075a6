//! The already-parsed request and response shapes exchanged with the HTTP
//! layer. The core consumes extracted fields, never raw HTTP.

use vstd::prelude::*;
use crate::providers::zerion::ZerionTransactionTransfer;

verus! {

/// Query parameters of a JSON-RPC proxy request.
#[derive(PartialEq, Eq, Debug)]
pub struct RpcQueryParams {
    pub chain_id: String,
    pub project_id: String,
}

/// Query parameters of a history request.
#[derive(PartialEq, Eq, Debug)]
pub struct HistoryQueryParams {
    /// Currency the amounts are quoted in; the upstream default is usd.
    pub currency: Option<String>,
    /// Opaque resume cursor from an earlier page, if the caller resumes.
    pub cursor: Option<String>,
}

/// Normalized metadata of one history transaction.
#[derive(PartialEq, Eq, Debug)]
pub struct HistoryTransactionMetadata {
    pub operation_type: String,
    pub hash: String,
    pub mined_at: String,
    pub nonce: usize,
    pub sent_from: String,
    pub sent_to: String,
    pub status: String,
}

/// One transaction of a history page, normalized across providers.
#[derive(PartialEq, Eq, Debug)]
pub struct HistoryTransaction {
    pub id: String,
    pub metadata: HistoryTransactionMetadata,
    pub transfers: Vec<ZerionTransactionTransfer>,
}

/// One page of history: the transactions in upstream order and the opaque
/// cursor of the next page, if there is one.
#[derive(PartialEq, Eq, Debug)]
pub struct HistoryResponseBody {
    pub data: Vec<HistoryTransaction>,
    pub next: Option<String>,
}

} // verus!
