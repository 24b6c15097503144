use jarvis_rust::config::{
    default_database_path, default_host, default_log_level, default_port, default_provider,
    LogsConfig,
};
use jarvis_rust::text::{decimal_string, join};
use jarvis_rust::Error;

#[test]
fn test_default_values() {
    let logs_config = LogsConfig::default();
    assert_eq!(logs_config.level, "info");

    assert_eq!(default_provider(), "openai");
    assert_eq!(default_host(), "0.0.0.0");
    assert_eq!(default_port(), 8080);
    assert_eq!(default_log_level(), "info");
    assert_eq!(default_database_path(), "history.db");
}

#[test]
fn test_error_construction() {
    let config_err = Error::config("Invalid config");
    assert_eq!(config_err.message(), "Configuration error: Invalid config");

    let llm_err = Error::llm("LLM failed");
    assert_eq!(llm_err.message(), "LLM error: LLM failed");

    let mcp_err = Error::mcp("MCP connection failed");
    assert_eq!(mcp_err.message(), "MCP error: MCP connection failed");

    let fsm_err = Error::fsm("Invalid state transition");
    assert_eq!(fsm_err.message(), "FSM error: Invalid state transition");

    let internal_err = Error::internal("Internal server error");
    assert_eq!(internal_err.message(), "Internal error: Internal server error");
}

#[test]
fn test_error_variants() {
    let invalid_transition = Error::InvalidTransition {
        current: "Ready".to_string(),
        requested: "Invalid".to_string(),
    };
    assert_eq!(
        invalid_transition.message(),
        "Invalid state transition: Ready -> Invalid"
    );

    let max_turns = Error::MaxTurnsExceeded { max_turns: 5 };
    assert_eq!(max_turns.message(), "Max interaction turns exceeded: 5");

    let tool_not_found = Error::ToolNotFound {
        tool_name: "weather_tool".to_string(),
    };
    assert_eq!(tool_not_found.message(), "Tool not found: weather_tool");

    let session_not_found = Error::SessionNotFound {
        session_id: "session-123".to_string(),
    };
    assert_eq!(session_not_found.message(), "Session not found: session-123");
}

#[test]
fn test_error_clone() {
    let original = Error::config("Test config error");
    let cloned = original.clone();
    assert_eq!(original.message(), cloned.message());

    let original = Error::InvalidTransition {
        current: "State1".to_string(),
        requested: "State2".to_string(),
    };
    let cloned = original.clone();
    assert_eq!(original.message(), cloned.message());

    let original = Error::MaxTurnsExceeded { max_turns: 10 };
    let cloned = original.clone();
    assert_eq!(original.message(), cloned.message());
}

#[test]
fn max_turns_message_writes_every_digit() {
    assert_eq!(
        Error::MaxTurnsExceeded { max_turns: 0 }.message(),
        "Max interaction turns exceeded: 0"
    );
    assert_eq!(
        Error::MaxTurnsExceeded { max_turns: 1207 }.message(),
        "Max interaction turns exceeded: 1207"
    );
    assert_eq!(
        Error::MaxTurnsExceeded { max_turns: usize::MAX }.message(),
        format!("Max interaction turns exceeded: {}", usize::MAX)
    );
}

#[test]
fn text_helpers() {
    assert_eq!(decimal_string(90210), "90210");
    assert_eq!(join(&vec![], ", "), "");
    assert_eq!(join(&vec!["a".to_string()], ", "), "a");
    assert_eq!(
        join(&vec!["a".to_string(), "b".to_string(), "c".to_string()], ", "),
        "a, b, c"
    );
}
