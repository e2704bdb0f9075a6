//! The slice of the JSON-RPC envelope the core reads. The raw request body
//! passes through to the upstream untouched; only the method name is kept,
//! for analytics.

use vstd::prelude::*;

verus! {

/// An inbound JSON-RPC request, as far as the core looks at it.
pub struct JsonRpcRequest {
    pub method: String,
}

} // verus!
