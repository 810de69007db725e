//! Host-side core of a model-context-protocol apps extension.
//!
//! The library covers the connection and session layer of such a host: the
//! JSON-RPC message model over a plain JSON tree, transport reply
//! correlation with its fixed timeout, capability negotiation between host,
//! server and app declarations, per-server connections with their tool and
//! resource caches, the manager that runs the handshake and routes calls,
//! the host-to-view bridge with its own id-correlated request table, and an
//! embedded same-process server wired over an in-memory transport pair.
//!
//! Everything here is stated and checked with Verus.  The functions that
//! reach outside — a fresh UUID, base64 decoding, lossy UTF-8 reading —
//! stand behind small trusted declarations; all routing, parsing,
//! negotiation and state-machine logic is verified against the contracts in
//! these modules.

pub mod bridge;
pub mod capabilities;
pub mod connection;
pub mod content;
pub mod error_codes;
pub mod host;
pub mod idgen;
pub mod json;
pub mod jsonrpc;
pub mod lifecycle;
pub mod manager;
pub mod messages;
pub mod model;
pub mod resources;
pub mod server;
pub mod strutil;
pub mod transport;
