//! Agents and their errors.

use vstd::prelude::*;

pub mod error;

pub use error::{AgentError, DefaultErrorHandler, ErrorHandler, ErrorMetadata, ErrorSeverity};

verus! {

/// Phase of an autonomous agent's decision cycle.
#[derive(Clone, Copy, Debug, PartialEq, Eq, Structural)]
pub enum ExecutionState {
    Planning,
    Executing,
    Learning,
    Idle,
}

/// Behaviour that every agent supplies.
pub trait AgentBehavior {
    /// Processes the data the agent has gathered.
    fn process_data(&self) -> Result<(), AgentError>;

    /// Advances the agent's internal state.
    fn update_state(&mut self) -> Result<(), AgentError>;
}

} // verus!
