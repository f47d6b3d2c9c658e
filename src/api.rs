use vstd::prelude::*;

verus! {

/// The logical database that holds the counter.
pub const DATABASE_NAME: &'static str = "counter";

/// The topic on which every new counter value is announced.
pub const COUNTER_CHANGED_TOPIC: &'static str = "counter-changed";

/// The key under which the counter is stored.
pub const COUNTER_KEY: &'static str = "current-count";

/// A request a client can send to the server.
#[derive(Debug, Clone, Copy, PartialEq, Eq, Structural)]
pub enum Request {
    /// Add one to the shared counter.
    IncrementCounter,
}

/// The server's answer to a successful request.
#[derive(Debug, Clone, Copy, PartialEq, Eq, Structural)]
pub enum Response {
    /// The counter now holds this value.
    CounterIncremented(u64),
}

/// Marker naming the request/response pair that this API exchanges.
#[derive(Debug)]
pub struct ExampleApi;

/// Why the server declined or failed a request.
#[derive(Debug, Clone, Copy, PartialEq, Eq, Structural)]
pub enum ApiError {
    /// The caller may not perform the request; nothing was changed.
    PermissionDenied,
    /// The counter already holds the largest representable value.
    CounterOverflow,
}

} // verus!
