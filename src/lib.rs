//! A two-hop HTTP relay: each inbound request triggers two sequential
//! outbound GET calls, and the caller receives the second call's response.
//!
//! The decisions of the relay live here as verified code; the network,
//! the server framework and the log subscriber are driven from outside.

pub mod endpoints;
pub mod exchange;
pub mod logging;
