//! Ingress gateway of a ledger peer: classifies inbound requests by route,
//! sequences the calls to the node's collaborators and produces the
//! status-line response for each request.

pub mod connection;
pub mod context;
pub mod exchange;
pub mod outbox;
pub mod router;
pub mod wire;
