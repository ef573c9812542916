//! Errors of agents, their metadata and the policy that decides recovery.

use vstd::prelude::*;

use crate::network::protocol::unix_time_now;

verus! {

/// Errors an agent can meet.
#[derive(Clone, Debug, PartialEq)]
pub enum AgentError {
    InvalidConfiguration,
    NotInitialized,
    InvalidStateTransition,
    CapabilityNotFound,
    InsufficientPermissions,
    ProcessingError,
    MemoryError,
    NetworkError,
    ValidationError,
    ResourceLimitExceeded,
    Timeout,
    InvalidInput,
    SystemOverload,
    Unauthorized,
    Custom(String),
}

/// The numeric code of each error, in declaration order.
pub open spec fn agent_error_code(e: AgentError) -> u32 {
    match e {
        AgentError::InvalidConfiguration => 0,
        AgentError::NotInitialized => 1,
        AgentError::InvalidStateTransition => 2,
        AgentError::CapabilityNotFound => 3,
        AgentError::InsufficientPermissions => 4,
        AgentError::ProcessingError => 5,
        AgentError::MemoryError => 6,
        AgentError::NetworkError => 7,
        AgentError::ValidationError => 8,
        AgentError::ResourceLimitExceeded => 9,
        AgentError::Timeout => 10,
        AgentError::InvalidInput => 11,
        AgentError::SystemOverload => 12,
        AgentError::Unauthorized => 13,
        AgentError::Custom(_) => 14,
    }
}

/// The human-readable text of each error.
pub open spec fn agent_error_text(e: AgentError) -> Seq<char> {
    match e {
        AgentError::InvalidConfiguration => "Invalid agent configuration"@,
        AgentError::NotInitialized => "Agent not initialized"@,
        AgentError::InvalidStateTransition => "Invalid state transition"@,
        AgentError::CapabilityNotFound => "Capability not found"@,
        AgentError::InsufficientPermissions => "Insufficient permissions"@,
        AgentError::ProcessingError => "Processing error"@,
        AgentError::MemoryError => "Memory allocation error"@,
        AgentError::NetworkError => "Network communication error"@,
        AgentError::ValidationError => "Data validation error"@,
        AgentError::ResourceLimitExceeded => "Resource limit exceeded"@,
        AgentError::Timeout => "Operation timeout"@,
        AgentError::InvalidInput => "Invalid input data"@,
        AgentError::SystemOverload => "System overload"@,
        AgentError::Unauthorized => "Unauthorized action"@,
        AgentError::Custom(s) => "Custom error: "@ + s@,
    }
}

impl AgentError {
    /// The numeric code of the error.
    pub fn code(&self) -> (r: u32)
        ensures
            r == agent_error_code(*self),
    {
        match self {
            AgentError::InvalidConfiguration => 0,
            AgentError::NotInitialized => 1,
            AgentError::InvalidStateTransition => 2,
            AgentError::CapabilityNotFound => 3,
            AgentError::InsufficientPermissions => 4,
            AgentError::ProcessingError => 5,
            AgentError::MemoryError => 6,
            AgentError::NetworkError => 7,
            AgentError::ValidationError => 8,
            AgentError::ResourceLimitExceeded => 9,
            AgentError::Timeout => 10,
            AgentError::InvalidInput => 11,
            AgentError::SystemOverload => 12,
            AgentError::Unauthorized => 13,
            AgentError::Custom(_) => 14,
        }
    }

    /// The human-readable text of the error.
    pub fn to_string(&self) -> (r: String)
        ensures
            r@ == agent_error_text(*self),
    {
        match self {
            AgentError::InvalidConfiguration => "Invalid agent configuration".to_owned(),
            AgentError::NotInitialized => "Agent not initialized".to_owned(),
            AgentError::InvalidStateTransition => "Invalid state transition".to_owned(),
            AgentError::CapabilityNotFound => "Capability not found".to_owned(),
            AgentError::InsufficientPermissions => "Insufficient permissions".to_owned(),
            AgentError::ProcessingError => "Processing error".to_owned(),
            AgentError::MemoryError => "Memory allocation error".to_owned(),
            AgentError::NetworkError => "Network communication error".to_owned(),
            AgentError::ValidationError => "Data validation error".to_owned(),
            AgentError::ResourceLimitExceeded => "Resource limit exceeded".to_owned(),
            AgentError::Timeout => "Operation timeout".to_owned(),
            AgentError::InvalidInput => "Invalid input data".to_owned(),
            AgentError::SystemOverload => "System overload".to_owned(),
            AgentError::Unauthorized => "Unauthorized action".to_owned(),
            AgentError::Custom(s) => "Custom error: ".to_owned().concat(s.as_str()),
        }
    }
}

/// How serious an error is.
#[derive(Clone, Copy, Debug, PartialEq, Eq, Structural)]
pub enum ErrorSeverity {
    Low,
    Medium,
    High,
    Critical,
}

/// Circumstances of an error.
#[derive(Debug)]
pub struct ErrorMetadata {
    /// When the error occurred, in seconds since the Unix epoch.
    pub timestamp: u64,
    pub severity: ErrorSeverity,
    pub context: String,
    pub recoverable: bool,
}

impl ErrorMetadata {
    /// Metadata stamped with the current time.
    pub fn new(severity: ErrorSeverity, context: &str, recoverable: bool) -> (r: ErrorMetadata)
        ensures
            r.severity == severity,
            r.context@ == context@,
            r.recoverable == recoverable,
    {
        ErrorMetadata {
            timestamp: unix_time_now(),
            severity,
            context: context.to_owned(),
            recoverable,
        }
    }
}

/// A recovery policy. An error is recovered from when the handler recovers
/// from its kind and the metadata says the occurrence is recoverable.
pub trait ErrorHandler {
    /// The kinds of error this handler recovers from.
    spec fn recovers(&self, error: AgentError) -> bool;

    /// Handles an error: `Ok` when it was recovered from, the error otherwise.
    fn handle_error(&self, error: AgentError, metadata: ErrorMetadata) -> (r: Result<(), AgentError>)
        ensures
            r == if self.recovers(error) && metadata.recoverable {
                Ok::<(), AgentError>(())
            } else {
                Err(error)
            },
    ;

    /// Whether the handler recovers from this kind of error.
    fn can_recover(&self, error: &AgentError) -> (r: bool)
        ensures
            r == self.recovers(*error),
    ;
}

/// The handler that recovers from network errors, timeouts and overload.
#[derive(Debug)]
pub struct DefaultErrorHandler;

impl ErrorHandler for DefaultErrorHandler {
    open spec fn recovers(&self, error: AgentError) -> bool {
        error is NetworkError || error is Timeout || error is SystemOverload
    }

    fn handle_error(&self, error: AgentError, metadata: ErrorMetadata) -> (r: Result<(), AgentError>) {
        if self.can_recover(&error) && metadata.recoverable {
            Ok(())
        } else {
            Err(error)
        }
    }

    fn can_recover(&self, error: &AgentError) -> (r: bool) {
        match error {
            AgentError::NetworkError | AgentError::Timeout | AgentError::SystemOverload => true,
            _ => false,
        }
    }
}

} // verus!
