//! An RPC front end for a peer-to-peer node: JSON-RPC requests come in over HTTP, over
//! WebSocket and from within the process, are handed to the application, and are answered.
//!
//! The modules decide; they do no input or output of their own. A connection and the router
//! are state machines: each step takes what happened and returns what to do.

pub mod http;
mod ident;
pub mod jsonrpc;
pub mod laws;
pub mod message;
pub mod peer;
pub mod router;
pub mod server;
pub mod text;
pub mod ws;
