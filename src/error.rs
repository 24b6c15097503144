//! The library's error type.

use vstd::prelude::*;
use crate::text::{concat, concat3, decimal, decimal_string};

verus! {

/// What can go wrong while running a conversation.
#[derive(Debug)]
pub enum Error {
    /// Bad static setup of one connection.
    Config(String),
    /// The language-model backend failed or answered unusably.
    Llm(String),
    /// A tool server failed.
    Mcp(String),
    /// Misuse of the turn state machine.
    Fsm(String),
    /// An event that the state machine's table does not allow in its state.
    InvalidTransition { current: String, requested: String },
    /// The turn budget is spent.
    MaxTurnsExceeded { max_turns: usize },
    ToolNotFound { tool_name: String },
    SessionNotFound { session_id: String },
    /// An internal invariant does not hold.
    Internal(String),
}

/// The outcome of a fallible operation of the library.
pub type Result<T> = std::result::Result<T, Error>;

/// The text that describes an error to a person.
pub open spec fn error_text(e: Error) -> Seq<char> {
    match e {
        Error::Config(s) => "Configuration error: "@ + s@,
        Error::Llm(s) => "LLM error: "@ + s@,
        Error::Mcp(s) => "MCP error: "@ + s@,
        Error::Fsm(s) => "FSM error: "@ + s@,
        Error::InvalidTransition { current, requested } =>
            "Invalid state transition: "@ + current@ + " -> "@ + requested@,
        Error::MaxTurnsExceeded { max_turns } =>
            "Max interaction turns exceeded: "@ + decimal(max_turns as nat),
        Error::ToolNotFound { tool_name } => "Tool not found: "@ + tool_name@,
        Error::SessionNotFound { session_id } => "Session not found: "@ + session_id@,
        Error::Internal(s) => "Internal error: "@ + s@,
    }
}

impl Clone for Error {
    fn clone(&self) -> (r: Self)
        ensures
            r == *self,
    {
        match self {
            Error::Config(s) => Error::Config(s.clone()),
            Error::Llm(s) => Error::Llm(s.clone()),
            Error::Mcp(s) => Error::Mcp(s.clone()),
            Error::Fsm(s) => Error::Fsm(s.clone()),
            Error::InvalidTransition { current, requested } => Error::InvalidTransition {
                current: current.clone(),
                requested: requested.clone(),
            },
            Error::MaxTurnsExceeded { max_turns } => Error::MaxTurnsExceeded {
                max_turns: *max_turns,
            },
            Error::ToolNotFound { tool_name } => Error::ToolNotFound {
                tool_name: tool_name.clone(),
            },
            Error::SessionNotFound { session_id } => Error::SessionNotFound {
                session_id: session_id.clone(),
            },
            Error::Internal(s) => Error::Internal(s.clone()),
        }
    }
}

impl Error {
    pub fn config(msg: &str) -> (r: Error)
        ensures
            r is Config && r->Config_0@ == msg@,
    {
        Error::Config(String::from_str(msg))
    }

    pub fn llm(msg: &str) -> (r: Error)
        ensures
            r is Llm && r->Llm_0@ == msg@,
    {
        Error::Llm(String::from_str(msg))
    }

    pub fn mcp(msg: &str) -> (r: Error)
        ensures
            r is Mcp && r->Mcp_0@ == msg@,
    {
        Error::Mcp(String::from_str(msg))
    }

    pub fn fsm(msg: &str) -> (r: Error)
        ensures
            r is Fsm && r->Fsm_0@ == msg@,
    {
        Error::Fsm(String::from_str(msg))
    }

    pub fn internal(msg: &str) -> (r: Error)
        ensures
            r is Internal && r->Internal_0@ == msg@,
    {
        Error::Internal(String::from_str(msg))
    }

    /// The text that describes this error to a person.
    pub fn message(&self) -> (r: String)
        ensures
            r@ == error_text(*self),
    {
        proof {
            reveal_strlit("Configuration error: ");
            reveal_strlit("LLM error: ");
            reveal_strlit("MCP error: ");
            reveal_strlit("FSM error: ");
            reveal_strlit("Invalid state transition: ");
            reveal_strlit(" -> ");
            reveal_strlit("Max interaction turns exceeded: ");
            reveal_strlit("Tool not found: ");
            reveal_strlit("Session not found: ");
            reveal_strlit("Internal error: ");
        }
        match self {
            Error::Config(s) => concat("Configuration error: ", s.as_str()),
            Error::Llm(s) => concat("LLM error: ", s.as_str()),
            Error::Mcp(s) => concat("MCP error: ", s.as_str()),
            Error::Fsm(s) => concat("FSM error: ", s.as_str()),
            Error::InvalidTransition { current, requested } => {
                let mut r = concat3("Invalid state transition: ", current.as_str(), " -> ");
                r.append(requested.as_str());
                r
            },
            Error::MaxTurnsExceeded { max_turns } => {
                let n = decimal_string(*max_turns);
                concat("Max interaction turns exceeded: ", n.as_str())
            },
            Error::ToolNotFound { tool_name } => concat("Tool not found: ", tool_name.as_str()),
            Error::SessionNotFound { session_id } => concat(
                "Session not found: ",
                session_id.as_str(),
            ),
            Error::Internal(s) => concat("Internal error: ", s.as_str()),
        }
    }
}

} // verus!
