//! Standard JSON-RPC error codes.

use vstd::prelude::*;

verus! {

/// Parse error
pub const PARSE_ERROR: i32 = -32700;

/// Invalid request
pub const INVALID_REQUEST: i32 = -32600;

/// Method not found
pub const METHOD_NOT_FOUND: i32 = -32601;

/// Invalid params
pub const INVALID_PARAMS: i32 = -32602;

/// Internal error
pub const INTERNAL_ERROR: i32 = -32603;

/// Server error (implementation-defined)
pub const SERVER_ERROR: i32 = -32000;

} // verus!
