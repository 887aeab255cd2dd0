//! Newline-delimited JSON message exchange over a local byte stream.
//!
//! The library is organised around three pieces: a wire codec that turns a
//! JSON value into a newline-terminated text frame and back, a channel that
//! keeps the read-buffer state for one connection and decides when a complete
//! frame has arrived (or the peer vanished mid-frame), and an acceptor that
//! filters a stream of inbound connection attempts down to the live ones.
//! A small client wrapper for a GraphQL endpoint and the input mapping for a
//! subgraph check mutation share the crate.
pub mod acceptor;
pub mod channel;
pub mod check;
pub mod client;
pub mod codec;
