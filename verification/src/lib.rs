//! A verified correlation core for a line-delimited JSON-RPC client.
//!
//! The library pairs outgoing requests with their eventual inbound replies:
//! it allocates strictly increasing integer ids, keeps a pending table from
//! id to a single-use waiter, classifies inbound wire lines, and routes each
//! reply to exactly the waiter registered under its id. The surrounding
//! process plumbing (spawning the peer, the read/write loops) is ordinary
//! async code that drives these verified steps.

pub mod engine;
pub mod json;
pub mod laws;
pub mod wire;
