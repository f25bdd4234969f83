//! Admission and dispatch rules of a monitoring agent's pull endpoint.
//!
//! The crate decides; the caller performs. Sockets, the TLS handshake, the
//! registry and the clock stay with the caller, who reports what happened as
//! plain values and is told what to do next.

pub mod addr;
pub mod allowlist;
pub mod config;
pub mod error;
pub mod handler;
pub mod limiter;
pub mod server;
pub mod transport;
