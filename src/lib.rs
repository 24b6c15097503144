//! Conversational agent runtime: the turn state machine, the tool router
//! and the decisions of the agent executor, with their contracts.

pub mod agent;
pub mod api;
pub mod config;
pub mod error;
pub mod history;
pub mod json;
pub mod llm;
pub mod mcp;
pub mod table;
pub mod text;

pub use error::{Error, Result};
