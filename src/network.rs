//! Network layer: configuration, errors, shared status and metrics snapshots,
//! and the components that use them.

use vstd::prelude::*;

pub mod protocol;
pub mod wire;
pub mod metrics;
pub mod governor;
pub mod executor;
pub mod channel;

pub use protocol::{Message, MessageType, ResponseStatus};

verus! {

/// Default request timeout, in milliseconds.
pub const DEFAULT_TIMEOUT: u64 = 30_000;

/// Default maximum number of retries for a network operation.
pub const MAX_RETRIES: u32 = 3;

/// Default keep-alive interval, in milliseconds.
pub const DEFAULT_KEEP_ALIVE: u64 = 60_000;

/// Default size of the admission pool.
pub const DEFAULT_MAX_CONNECTIONS: u32 = 100;

/// Immutable per-client settings. Durations are in milliseconds.
#[derive(Clone, Debug)]
pub struct NetworkConfig {
    /// Base URL of the remote service.
    pub url: String,
    /// Request timeout.
    pub timeout: u64,
    /// Maximum number of retries after the first attempt.
    pub max_retries: u32,
    /// Keep-alive interval.
    pub keep_alive: u64,
    /// Number of admission slots.
    pub max_connections: u32,
}

impl Default for NetworkConfig {
    fn default() -> (r: NetworkConfig)
        ensures
            r.url@ == "http://localhost:8899"@,
            r.timeout == DEFAULT_TIMEOUT,
            r.max_retries == MAX_RETRIES,
            r.keep_alive == DEFAULT_KEEP_ALIVE,
            r.max_connections == DEFAULT_MAX_CONNECTIONS,
    {
        NetworkConfig {
            url: "http://localhost:8899".to_owned(),
            timeout: DEFAULT_TIMEOUT,
            max_retries: MAX_RETRIES,
            keep_alive: DEFAULT_KEEP_ALIVE,
            max_connections: DEFAULT_MAX_CONNECTIONS,
        }
    }
}

/// Why a message broke the wire protocol.
#[derive(Clone, Debug, PartialEq, Eq)]
pub enum ProtocolFault {
    /// The message carries a protocol version other than the supported one.
    VersionMismatch(u32),
    /// The message timestamp lies more than the tolerated skew in the future.
    ClockSkew(u64),
    /// A field that the message variant requires is empty.
    MalformedField,
    /// The bytes are not the encoding of any message.
    MalformedFrame,
    /// The transport failed while a frame was written or read.
    Transport(String),
}

/// Errors of network operations.
#[derive(Clone, Debug)]
pub enum NetworkError {
    /// Transport-level failure; retryable by the executor.
    ConnectionFailed(String),
    /// The operation exceeded the configured duration (milliseconds).
    Timeout(u64),
    /// Malformed or unrecognised response; not retryable.
    InvalidResponse(String),
    /// The message codec rejected a message or frame; not retryable.
    ProtocolError(ProtocolFault),
    /// The caller must back off for the given milliseconds.
    RateLimitExceeded(u64),
    /// The server refused the request (client-error status); not retryable.
    AuthenticationFailed(String),
    /// A channel operation was attempted outside the open state.
    NotConnected,
    /// The admission governor has been shut down.
    GovernorClosed,
}

/// Health snapshot owned by the connection governor.
#[derive(Clone, Copy, Debug, PartialEq, Eq, Structural)]
pub struct NetworkStatus {
    /// Whether a duplex stream is connected.
    pub connected: bool,
    /// Latency of the last completed operation, in milliseconds.
    pub latency: u64,
    /// Number of admission slots in use.
    pub active_connections: u32,
    /// Number of operations waiting for a slot.
    pub pending_requests: u32,
}

/// Counters aggregated by the metrics recorder. Latencies are in milliseconds.
#[derive(Clone, Copy, Debug, PartialEq, Eq, Structural)]
pub struct NetworkMetrics {
    /// Calls that reached a terminal outcome.
    pub total_requests: u64,
    /// Calls that ended with a response.
    pub total_responses: u64,
    /// Calls that ended with an error.
    pub total_errors: u64,
    /// Moving average of the recorded latencies.
    pub average_latency: u64,
    /// Largest recorded latency.
    pub max_latency: u64,
}

/// Callbacks that an application registers to observe the network layer.
pub trait NetworkHandler {
    /// Handles an incoming message and produces the reply.
    fn handle_message(&self, message: Message) -> Result<Message, NetworkError>;

    /// Handles a network error.
    fn handle_error(&self, error: NetworkError);

    /// Handles a status update.
    fn handle_status(&self, status: NetworkStatus);
}

} // verus!
