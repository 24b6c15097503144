//! The tool-server model: tools, calls, results, prompts and capabilities.

use vstd::prelude::*;
use std::collections::HashMap;

pub use crate::config::McpClientType;

verus! {

/// Capabilities that this client announces in the handshake.
#[derive(Debug, Clone)]
pub struct McpInitializeRequest {
    pub capabilities: McpClientCapabilities,
}

#[derive(Debug, Clone)]
pub struct McpClientCapabilities {
    pub roots: Option<McpRootsCapability>,
    pub sampling: Option<serde_json::Value>,
}

#[derive(Debug, Clone, Copy)]
pub struct McpRootsCapability {
    pub list_changed: bool,
}

/// What a tool server answers to the handshake.
#[derive(Debug, Clone)]
pub struct McpInitializeResponse {
    pub capabilities: McpServerCapabilities,
    pub protocol_version: String,
    pub server_info: Option<McpServerInfo>,
}

#[derive(Debug, Clone, Copy)]
pub struct McpServerCapabilities {
    pub tools: Option<McpToolsCapability>,
    pub prompts: Option<McpPromptsCapability>,
    pub resources: Option<McpResourcesCapability>,
}

#[derive(Debug, Clone, Copy)]
pub struct McpToolsCapability {
    pub list_changed: bool,
}

#[derive(Debug, Clone, Copy)]
pub struct McpPromptsCapability {
    pub list_changed: bool,
}

#[derive(Debug, Clone, Copy)]
pub struct McpResourcesCapability {
    pub subscribe: bool,
    pub list_changed: bool,
}

#[derive(Debug, Clone)]
pub struct McpServerInfo {
    pub name: String,
    pub version: String,
}

/// A tool as a tool server lists it.
#[derive(Debug, Clone)]
pub struct McpTool {
    pub name: String,
    pub description: String,
    pub input_schema: serde_json::Value,
}

/// An invocation of a tool by name.
#[derive(Debug)]
pub struct McpToolCallRequest {
    pub name: String,
    pub arguments: HashMap<String, serde_json::Value>,
}

impl Clone for McpToolCallRequest {
    fn clone(&self) -> (r: Self)
        ensures
            r.name == self.name,
            r.arguments@ == self.arguments@,
    {
        McpToolCallRequest { name: self.name.clone(), arguments: self.arguments.clone() }
    }
}

/// The outcome of a tool invocation.
#[derive(Debug, Clone)]
pub struct McpToolCallResponse {
    pub content: Vec<McpContent>,
    pub is_error: bool,
}

/// One item of a tool result or of a prompt message.
#[derive(Debug, Clone)]
pub enum McpContent {
    Text { text: String },
    Image { data: String, mime_type: String },
    Resource { resource: McpResourceContent },
}

#[derive(Debug, Clone)]
pub struct McpResourceContent {
    pub uri: String,
    pub text: Option<String>,
    pub blob: Option<String>,
}

/// A prompt template that a tool server offers.
#[derive(Debug, Clone)]
pub struct McpPrompt {
    pub name: String,
    pub description: String,
    pub arguments: Vec<McpPromptArgument>,
}

#[derive(Debug, Clone)]
pub struct McpPromptArgument {
    pub name: String,
    pub description: String,
    pub required: bool,
}

/// A request for the messages of one prompt.
#[derive(Debug, Clone)]
pub struct McpGetPromptRequest {
    pub name: String,
    pub arguments: HashMap<String, serde_json::Value>,
}

#[derive(Debug, Clone)]
pub struct McpGetPromptResponse {
    pub description: String,
    pub messages: Vec<McpPromptMessage>,
}

#[derive(Debug, Clone)]
pub struct McpPromptMessage {
    pub role: String,
    pub content: McpContent,
}

/// The text of a content item, where it is text.
pub open spec fn text_of(c: McpContent) -> Option<Seq<char>> {
    match c {
        McpContent::Text { text } => Some(text@),
        _ => None,
    }
}

/// The text content of a tool result as it goes back to the language model:
/// the text of its first item where that item is text, else nothing.
pub open spec fn result_text(r: McpToolCallResponse) -> Seq<char> {
    if r.content@.len() > 0 && text_of(r.content@[0]) is Some {
        text_of(r.content@[0]).unwrap()
    } else {
        Seq::empty()
    }
}

/// A result that is marked as an error and holds one text item.
pub open spec fn is_error_text_result(r: McpToolCallResponse, text: Seq<char>) -> bool {
    &&& r.is_error
    &&& r.content@.len() == 1
    &&& text_of(r.content@[0]) == Some(text)
}

impl McpToolCallResponse {
    /// The text content of this result as it goes back to the language model.
    pub fn text(&self) -> (r: String)
        ensures
            r@ == result_text(*self),
    {
        if self.content.len() > 0 {
            match &self.content[0] {
                McpContent::Text { text } => text.clone(),
                _ => String::new(),
            }
        } else {
            String::new()
        }
    }

    /// An error result that holds `text` alone.
    pub fn error_text(text: String) -> (r: McpToolCallResponse)
        ensures
            is_error_text_result(r, text@),
    {
        let mut content: Vec<McpContent> = Vec::new();
        content.push(McpContent::Text { text });
        McpToolCallResponse { content, is_error: true }
    }
}

} // verus!
