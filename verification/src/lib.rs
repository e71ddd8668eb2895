//! An RPC transport core: a length-delimited wire codec, a request/response
//! multiplexer that correlates pipelined calls by id, and the per-connection
//! state machines for the client and server sides of the protocol.
//!
//! The crate is organised leaves first: [`wire`] holds the big-endian integer
//! encodings, [`envelope`] the decoded message model, [`codec`] the framing
//! and envelope codec, [`mux`] the id correlation engine, and [`client`] /
//! [`server`] the connection state machines built on top of them. [`registry`]
//! maps method selectors to handler slots for server dispatch.
//!
//! Actual socket I/O, TLS, and serialization of application argument types
//! are deliberately outside this crate: every function here works on plain
//! values and byte vectors, and is verified.

pub mod client;
pub mod codec;
pub mod envelope;
pub mod errors;
pub mod mux;
pub mod registry;
pub mod server;
pub mod wire;
