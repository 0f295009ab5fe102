//! Control client for a networked camera that speaks JSON-RPC over a
//! message-oriented connection: call encoding, inbound traffic decoding and
//! reply correlation.
pub mod json;
pub mod codec;
pub mod engine;
pub mod options;
pub mod catalog;
