//! Errors of the on-chain agent program.

use vstd::prelude::*;

verus! {

/// Errors the program reports; each travels as a custom program error code.
#[derive(Clone, Copy, Debug, PartialEq, Eq, Structural)]
pub enum AgentError {
    InvalidInstructionData,
    InvalidAgentState,
    InvalidAuthority,
    NotInitialized,
    ExecutionLimitExceeded,
    MemoryLimitExceeded,
    InvalidConfiguration,
    InsufficientFunds,
    InvalidAccountData,
    OperationTimeout,
    Unauthorized,
    AlreadyInitialized,
    InvalidOwner,
    InvalidProgramAddress,
    InvalidSystemProgram,
}

/// The custom error code of each error, in declaration order.
pub open spec fn program_error_code(e: AgentError) -> u32 {
    match e {
        AgentError::InvalidInstructionData => 0,
        AgentError::InvalidAgentState => 1,
        AgentError::InvalidAuthority => 2,
        AgentError::NotInitialized => 3,
        AgentError::ExecutionLimitExceeded => 4,
        AgentError::MemoryLimitExceeded => 5,
        AgentError::InvalidConfiguration => 6,
        AgentError::InsufficientFunds => 7,
        AgentError::InvalidAccountData => 8,
        AgentError::OperationTimeout => 9,
        AgentError::Unauthorized => 10,
        AgentError::AlreadyInitialized => 11,
        AgentError::InvalidOwner => 12,
        AgentError::InvalidProgramAddress => 13,
        AgentError::InvalidSystemProgram => 14,
    }
}

/// The human-readable text of each error.
pub open spec fn program_error_text(e: AgentError) -> Seq<char> {
    match e {
        AgentError::InvalidInstructionData => "Invalid instruction data"@,
        AgentError::InvalidAgentState => "Invalid agent state for operation"@,
        AgentError::InvalidAuthority => "Invalid authority for agent"@,
        AgentError::NotInitialized => "Agent account not initialized"@,
        AgentError::ExecutionLimitExceeded => "Agent execution limit exceeded"@,
        AgentError::MemoryLimitExceeded => "Memory limit exceeded"@,
        AgentError::InvalidConfiguration => "Invalid configuration"@,
        AgentError::InsufficientFunds => "Insufficient funds"@,
        AgentError::InvalidAccountData => "Invalid account data"@,
        AgentError::OperationTimeout => "Operation timeout"@,
        AgentError::Unauthorized => "Unauthorized operation"@,
        AgentError::AlreadyInitialized => "Agent already initialized"@,
        AgentError::InvalidOwner => "Invalid account owner"@,
        AgentError::InvalidProgramAddress => "Invalid program address"@,
        AgentError::InvalidSystemProgram => "Invalid system program"@,
    }
}

impl AgentError {
    /// The custom error code of the error.
    pub fn code(&self) -> (r: u32)
        ensures
            r == program_error_code(*self),
    {
        match self {
            AgentError::InvalidInstructionData => 0,
            AgentError::InvalidAgentState => 1,
            AgentError::InvalidAuthority => 2,
            AgentError::NotInitialized => 3,
            AgentError::ExecutionLimitExceeded => 4,
            AgentError::MemoryLimitExceeded => 5,
            AgentError::InvalidConfiguration => 6,
            AgentError::InsufficientFunds => 7,
            AgentError::InvalidAccountData => 8,
            AgentError::OperationTimeout => 9,
            AgentError::Unauthorized => 10,
            AgentError::AlreadyInitialized => 11,
            AgentError::InvalidOwner => 12,
            AgentError::InvalidProgramAddress => 13,
            AgentError::InvalidSystemProgram => 14,
        }
    }

    /// The human-readable text of the error.
    pub fn to_string(&self) -> (r: String)
        ensures
            r@ == program_error_text(*self),
    {
        match self {
            AgentError::InvalidInstructionData => "Invalid instruction data".to_owned(),
            AgentError::InvalidAgentState => "Invalid agent state for operation".to_owned(),
            AgentError::InvalidAuthority => "Invalid authority for agent".to_owned(),
            AgentError::NotInitialized => "Agent account not initialized".to_owned(),
            AgentError::ExecutionLimitExceeded => "Agent execution limit exceeded".to_owned(),
            AgentError::MemoryLimitExceeded => "Memory limit exceeded".to_owned(),
            AgentError::InvalidConfiguration => "Invalid configuration".to_owned(),
            AgentError::InsufficientFunds => "Insufficient funds".to_owned(),
            AgentError::InvalidAccountData => "Invalid account data".to_owned(),
            AgentError::OperationTimeout => "Operation timeout".to_owned(),
            AgentError::Unauthorized => "Unauthorized operation".to_owned(),
            AgentError::AlreadyInitialized => "Agent already initialized".to_owned(),
            AgentError::InvalidOwner => "Invalid account owner".to_owned(),
            AgentError::InvalidProgramAddress => "Invalid program address".to_owned(),
            AgentError::InvalidSystemProgram => "Invalid system program".to_owned(),
        }
    }
}

} // verus!
