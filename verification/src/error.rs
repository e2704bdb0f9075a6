//! The closed error taxonomy exposed to the HTTP layer.

use vstd::prelude::*;

verus! {

/// Classified failure of a request, one tag per cause.
///
/// `ChainNotFound` and `CursorParseError` are terminal client errors, never
/// retried. `Throttled`, `TransportError` and `UpstreamProtocolError` are
/// retried against other candidates within the same request and surface only
/// when every candidate is exhausted.
#[derive(Clone, Copy, PartialEq, Eq, Structural, Debug)]
pub enum RpcError {
    ChainNotFound,
    Throttled,
    TransportError,
    UpstreamProtocolError,
    CursorParseError,
}

/// How actionable a retryable failure is for the caller when several kinds
/// were seen before exhaustion: throttling is the clearest back-off signal,
/// then transport failure, then a protocol anomaly.
pub open spec fn spec_retry_priority(e: RpcError) -> int {
    match e {
        RpcError::Throttled => 3,
        RpcError::TransportError => 2,
        RpcError::UpstreamProtocolError => 1,
        _ => 0,
    }
}

/// Whether a failure of this kind counts against a provider's health.
/// Throttling and transport failures do; `ChainNotFound` is a configuration
/// fact and a protocol anomaly may be a one-off, so neither is penalized.
pub open spec fn spec_penalizes(e: RpcError) -> bool {
    e is Throttled || e is TransportError
}

/// Executable twin of [`spec_penalizes`].
pub fn penalizes(e: RpcError) -> (r: bool)
    ensures
        r == spec_penalizes(e),
{
    match e {
        RpcError::Throttled => true,
        RpcError::TransportError => true,
        _ => false,
    }
}

} // verus!
