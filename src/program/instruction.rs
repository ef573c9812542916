//! Instructions of the on-chain agent program.

use vstd::prelude::*;

verus! {

/// Settings of an agent.
#[derive(Clone, Debug)]
pub struct AgentConfig {
    pub autonomous_mode: bool,
    pub execution_limit: u64,
    pub memory_limit: u64,
    pub capabilities: Vec<String>,
}

/// What the program is asked to do.
#[derive(Clone, Debug)]
pub enum AgentInstruction {
    /// Creates an agent account.
    Initialize { name: String, config: AgentConfig },
    /// Replaces an agent's configuration.
    Update { config: AgentConfig },
    /// Runs an agent action.
    Execute { action_data: Vec<u8> },
    /// Suspends an agent.
    Pause,
    /// Resumes a suspended agent.
    Resume,
}

} // verus!
