//! WebSocket upgrade handling for an HTTP pipeline: deciding whether a
//! request asks for a protocol switch, computing the RFC 6455 handshake
//! response, and modelling the message traffic of the session that follows.
//!
//! The asynchronous plumbing that drives a live connection (the HTTP
//! server, the frame codec, the task scheduler) sits outside this crate;
//! here live the decisions and the data they are made over, each with a
//! proved contract.

pub mod connection;
pub mod handshake;
pub mod headers;
pub mod message;
pub mod response;
pub mod session;
