//! Shared, observable counter state: a keyed counter store with atomic
//! increments, a topic-based notification bus, the request dispatcher that
//! ties them together on the server, and the client session that reconciles
//! responses and notifications into one displayed value.

pub mod api;
pub mod store;
pub mod bus;
pub mod server;
pub mod session;
