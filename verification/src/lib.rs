//! Verified core of a small HTTP edge gateway.
//!
//! The crate models the decision logic of an edge server that serves a few
//! native routes and forwards every other request to a supervised backend
//! process: how an inbound request is rewritten into an outbound one, which
//! backend response headers are relayed, how transport failures are mapped to
//! error responses, and when the startup supervisor may declare the backend
//! ready. All network and process I/O lives outside the library and hands in
//! plain values.

pub mod gateway;
pub mod routes;
pub mod supervisor;
