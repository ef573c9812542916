//! Account state of the on-chain agent program.

use vstd::prelude::*;

use crate::program::error::AgentError;
use crate::program::instruction::AgentConfig;

verus! {

/// Lifecycle of an agent account.
#[derive(Clone, Copy, Debug, PartialEq, Eq, Structural)]
pub enum AgentState {
    Uninitialized,
    Initialized,
    Running,
    Paused,
    Error,
    Terminated,
}

/// The allowed transitions: initialisation, start, pause and resume, and from
/// any state into `Error` or `Terminated`.
pub open spec fn transition_allowed(from: AgentState, to: AgentState) -> bool {
    (from == AgentState::Uninitialized && to == AgentState::Initialized) || (from
        == AgentState::Initialized && to == AgentState::Running) || (from == AgentState::Running
        && to == AgentState::Paused) || (from == AgentState::Paused && to == AgentState::Running)
        || to == AgentState::Error || to == AgentState::Terminated
}

/// An agent account as the program stores it.
#[derive(Debug)]
pub struct AgentAccount {
    /// Public key of the authority, as its 32 bytes.
    pub authority: [u8; 32],
    pub name: String,
    pub config: AgentConfig,
    pub state: AgentState,
    /// Time of the last execution, in seconds since the Unix epoch.
    pub last_execution: i64,
    pub execution_count: u64,
}

impl AgentAccount {
    /// A freshly initialised account that has never executed.
    pub fn new(authority: [u8; 32], name: String, config: AgentConfig) -> (r: AgentAccount)
        ensures
            r.authority == authority,
            r.name == name,
            r.config == config,
            r.state == AgentState::Initialized,
            r.last_execution == 0,
            r.execution_count == 0,
    {
        AgentAccount {
            authority,
            name,
            config,
            state: AgentState::Initialized,
            last_execution: 0,
            execution_count: 0,
        }
    }

    /// Moves to `new_state` when the transition is allowed; otherwise leaves the
    /// account unchanged and reports invalid account data.
    pub fn update_state(&mut self, new_state: AgentState) -> (r: Result<(), AgentError>)
        ensures
            transition_allowed(old(self).state, new_state) ==> r is Ok && final(self).state
                == new_state,
            !transition_allowed(old(self).state, new_state) ==> r == Err::<(), AgentError>(
                AgentError::InvalidAccountData,
            ) && final(self).state == old(self).state,
            final(self).authority == old(self).authority,
            final(self).name == old(self).name,
            final(self).config == old(self).config,
            final(self).last_execution == old(self).last_execution,
            final(self).execution_count == old(self).execution_count,
    {
        let allowed = match (self.state, new_state) {
            (AgentState::Uninitialized, AgentState::Initialized) => true,
            (AgentState::Initialized, AgentState::Running) => true,
            (AgentState::Running, AgentState::Paused) => true,
            (AgentState::Paused, AgentState::Running) => true,
            (_, AgentState::Error) => true,
            (_, AgentState::Terminated) => true,
            _ => false,
        };
        if !allowed {
            return Err(AgentError::InvalidAccountData);
        }
        self.state = new_state;
        Ok(())
    }

    /// Whether the agent is running.
    pub fn is_active(&self) -> (r: bool)
        ensures
            r == (self.state == AgentState::Running),
    {
        self.state == AgentState::Running
    }

    /// Whether the agent may execute: it is running and below its execution limit.
    pub fn can_execute(&self) -> (r: bool)
        ensures
            r == (self.state == AgentState::Running && self.config.execution_limit
                > self.execution_count),
    {
        self.is_active() && self.config.execution_limit > self.execution_count
    }

    /// Records an execution at `timestamp`. The count stays at `u64::MAX` once
    /// it gets there.
    pub fn record_execution(&mut self, timestamp: i64)
        ensures
            final(self).last_execution == timestamp,
            final(self).execution_count == if old(self).execution_count < u64::MAX {
                (old(self).execution_count + 1) as u64
            } else {
                old(self).execution_count
            },
            final(self).state == old(self).state,
            final(self).config == old(self).config,
            final(self).authority == old(self).authority,
            final(self).name == old(self).name,
    {
        self.last_execution = timestamp;
        self.execution_count = self.execution_count.saturating_add(1);
    }
}

/// Execution statistics of an agent.
#[derive(Clone, Copy, Debug, PartialEq, Eq, Structural)]
pub struct PerformanceMetrics {
    pub total_executions: u64,
    pub successful_executions: u64,
    pub failed_executions: u64,
    pub average_execution_time: u64,
    pub total_compute_units: u64,
}

impl Default for PerformanceMetrics {
    fn default() -> (r: PerformanceMetrics)
        ensures
            r == (PerformanceMetrics {
                total_executions: 0,
                successful_executions: 0,
                failed_executions: 0,
                average_execution_time: 0,
                total_compute_units: 0,
            }),
    {
        PerformanceMetrics {
            total_executions: 0,
            successful_executions: 0,
            failed_executions: 0,
            average_execution_time: 0,
            total_compute_units: 0,
        }
    }
}

/// Bookkeeping of an agent account.
#[derive(Clone, Copy, Debug, PartialEq, Eq, Structural)]
pub struct AgentMetadata {
    pub created_at: i64,
    pub updated_at: i64,
    pub version: u32,
    pub performance_metrics: PerformanceMetrics,
}

} // verus!
