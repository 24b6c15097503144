//! Static configuration: the language model, the front end and the tool
//! servers to connect to.

use vstd::prelude::*;
use std::collections::HashMap;
use crate::agent::fsm::DEFAULT_MAX_TURNS;

verus! {

#[derive(Debug, Clone)]
pub struct Config {
    pub llm: LlmConfig,
    pub server: ServerConfig,
    pub mcp_servers: Vec<McpServerConfig>,
}

#[derive(Debug, Clone)]
pub struct LlmConfig {
    pub provider: String,
    pub base_url: String,
    pub api_key: String,
    pub model: String,
    pub system_prompt: Option<String>,
    /// The turn budget of one request; `DEFAULT_MAX_TURNS` where unset.
    pub max_turns: Option<usize>,
}

impl LlmConfig {
    /// The turn budget of one request.
    pub fn turn_budget(&self) -> (r: usize)
        ensures
            r == match self.max_turns {
                Some(n) => n,
                None => DEFAULT_MAX_TURNS,
            },
    {
        match self.max_turns {
            Some(n) => n,
            None => DEFAULT_MAX_TURNS,
        }
    }
}

#[derive(Debug, Clone)]
pub struct ServerConfig {
    pub host: String,
    pub port: u16,
    pub logs: LogsConfig,
    pub database_path: String,
}

#[derive(Debug, Clone)]
pub struct LogsConfig {
    pub level: String,
}

/// One tool server: where it is (`url`) or how to start it (`command`,
/// `args`, `env`), and over which transport it speaks.
#[derive(Debug, Clone)]
pub struct McpServerConfig {
    pub name: String,
    pub url: Option<String>,
    pub client_type: McpClientType,
    pub headers: HashMap<String, String>,
    pub command: Option<String>,
    pub args: Vec<String>,
    pub env: HashMap<String, String>,
}

/// The transport of a tool server.
#[derive(Debug, Clone, Copy, PartialEq, Eq, Structural)]
pub enum McpClientType {
    Sse,
    StreamableHttp,
    Stdio,
}

pub fn default_provider() -> (r: String)
    ensures
        r@ == "openai"@,
{
    String::from_str("openai")
}

pub fn default_host() -> (r: String)
    ensures
        r@ == "0.0.0.0"@,
{
    String::from_str("0.0.0.0")
}

pub fn default_port() -> (r: u16)
    ensures
        r == 8080,
{
    8080
}

pub fn default_log_level() -> (r: String)
    ensures
        r@ == "info"@,
{
    String::from_str("info")
}

pub fn default_database_path() -> (r: String)
    ensures
        r@ == "history.db"@,
{
    String::from_str("history.db")
}

impl Default for LogsConfig {
    fn default() -> (r: Self)
        ensures
            r.level@ == "info"@,
    {
        LogsConfig { level: default_log_level() }
    }
}

} // verus!
