//! Core of a small request/response protocol between a client and a tool
//! server: length-prefixed framing, JSON-RPC envelopes, the server's handshake
//! state machine with its tool registry, and the client's initialization
//! sequence.

pub mod bytes;
pub mod client;
pub mod frame;
pub mod handshake;
pub mod json;
pub mod jsonrpc;
pub mod payload;
pub mod protocol;
pub mod registry;
pub mod server;
pub mod text;
pub mod tools;
pub mod types;
