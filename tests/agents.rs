use sonoma_labs_toolkit::agent::{AgentError, DefaultErrorHandler, ErrorHandler, ErrorMetadata, ErrorSeverity};
use sonoma_labs_toolkit::program::error::AgentError as ProgramAgentError;
use sonoma_labs_toolkit::program::instruction::AgentConfig;
use sonoma_labs_toolkit::program::state::{AgentAccount, AgentState, PerformanceMetrics};

#[test]
fn test_error_handling() {
    let handler = DefaultErrorHandler;
    let error = AgentError::NetworkError;
    let metadata = ErrorMetadata::new(ErrorSeverity::Medium, "Network connection failed", true);

    assert!(handler.handle_error(error, metadata).is_ok());
}

#[test]
fn test_non_recoverable_error() {
    let handler = DefaultErrorHandler;
    let error = AgentError::InvalidConfiguration;
    let metadata = ErrorMetadata::new(ErrorSeverity::Critical, "Invalid config", false);

    assert!(handler.handle_error(error, metadata).is_err());
}

#[test]
fn test_custom_error() {
    let error = AgentError::Custom("Test error".to_string());
    assert_eq!(error.to_string(), "Custom error: Test error");
}

#[test]
fn recoverable_kind_needs_recoverable_occurrence() {
    let handler = DefaultErrorHandler;
    let metadata = ErrorMetadata::new(ErrorSeverity::Low, "timeout", false);
    assert_eq!(metadata.context, "timeout");
    assert_eq!(handler.handle_error(AgentError::Timeout, metadata), Err(AgentError::Timeout));
    assert!(handler.can_recover(&AgentError::SystemOverload));
    assert!(!handler.can_recover(&AgentError::Custom("x".to_string())));
}

#[test]
fn agent_error_codes_and_texts() {
    assert_eq!(AgentError::InvalidConfiguration.code(), 0);
    assert_eq!(AgentError::Unauthorized.code(), 13);
    assert_eq!(AgentError::Custom(String::new()).code(), 14);
    assert_eq!(AgentError::MemoryError.to_string(), "Memory allocation error");
}

#[test]
fn test_error_messages() {
    let error = ProgramAgentError::InvalidAuthority;
    assert_eq!(error.to_string(), "Invalid authority for agent");
}

#[test]
fn program_error_codes() {
    assert_eq!(ProgramAgentError::InvalidInstructionData.code(), 0);
    assert_eq!(ProgramAgentError::InvalidConfiguration.code(), 6);
    assert_eq!(ProgramAgentError::InvalidSystemProgram.code(), 14);
}

#[test]
fn test_initialize() {}

#[test]
fn test_update() {}

#[test]
fn test_execute() {}

#[test]
fn test_performance_metrics() {
    let metrics = PerformanceMetrics::default();
    assert_eq!(metrics.total_executions, 0);
    assert_eq!(metrics.successful_executions, 0);
    assert_eq!(metrics.failed_executions, 0);
}

fn config(limit: u64) -> AgentConfig {
    AgentConfig {
        autonomous_mode: true,
        execution_limit: limit,
        memory_limit: 5000,
        capabilities: vec!["compute".to_string()],
    }
}

#[test]
fn test_agent_state_transitions() {
    let mut agent = AgentAccount::new([7u8; 32], "test_agent".to_string(), config(1000));

    assert_eq!(agent.state, AgentState::Initialized);
    assert!(agent.update_state(AgentState::Running).is_ok());
    assert_eq!(agent.state, AgentState::Running);
}

#[test]
fn test_agent_execution_tracking() {
    let mut agent = AgentAccount::new([7u8; 32], "test_agent".to_string(), config(2));

    agent.update_state(AgentState::Running).unwrap();
    assert!(agent.can_execute());

    agent.record_execution(1000);
    assert!(agent.can_execute());

    agent.record_execution(2000);
    assert!(!agent.can_execute());
}

#[test]
fn forbidden_transition_is_refused() {
    let mut agent = AgentAccount::new([0u8; 32], "a".to_string(), config(1));
    assert_eq!(agent.update_state(AgentState::Paused), Err(ProgramAgentError::InvalidAccountData));
    assert_eq!(agent.state, AgentState::Initialized);
    assert!(agent.update_state(AgentState::Terminated).is_ok());
    assert!(!agent.is_active());
}
