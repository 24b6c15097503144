//! Chat messages and the language-model response, as the conversation core
//! sees them.

use vstd::prelude::*;

verus! {

/// One entry of a transcript. `tool_calls` is set on assistant messages that
/// request tools; `tool_call_id` on tool messages, naming the call answered.
#[derive(Debug, Clone)]
pub struct ChatMessage {
    pub role: String,
    pub content: String,
    pub tool_calls: Option<Vec<ToolCall>>,
    pub tool_call_id: Option<String>,
    pub name: Option<String>,
}

/// A tool call issued by the language model; `id` is opaque and is echoed
/// back with the result.
#[derive(Debug, Clone)]
pub struct ToolCall {
    pub id: String,
    pub function: FunctionCall,
}

/// The function that a tool call names, with its arguments as JSON text.
#[derive(Debug, Clone)]
pub struct FunctionCall {
    pub name: String,
    pub arguments: String,
}

/// A completion returned by the language model.
#[derive(Debug, Clone)]
pub struct ChatCompletionResponse {
    pub id: String,
    pub model: String,
    pub choices: Vec<Choice>,
    pub usage: Option<Usage>,
}

/// One alternative of a completion; only the first is ever consulted.
#[derive(Debug, Clone)]
pub struct Choice {
    pub index: u32,
    pub message: ChatMessage,
    pub finish_reason: Option<String>,
}

#[derive(Debug, Clone, Copy)]
pub struct Usage {
    pub prompt_tokens: u32,
    pub completion_tokens: u32,
    pub total_tokens: u32,
}

/// A callable function offered to the language model.
#[derive(Debug, Clone)]
pub struct Tool {
    pub tool_type: String,
    pub function: Function,
}

/// Name, description and input schema of a callable function.
#[derive(Debug, Clone)]
pub struct Function {
    pub name: String,
    pub description: String,
    pub parameters: serde_json::Value,
}

/// The ids of the tool calls that a message carries, in order.
pub open spec fn call_ids(m: ChatMessage) -> Seq<Seq<char>> {
    match m.tool_calls {
        Some(calls) => calls@.map_values(|c: ToolCall| c.id@),
        None => Seq::empty(),
    }
}

/// A copy of a list of tool calls.
pub fn copy_calls(calls: &Vec<ToolCall>) -> (r: Vec<ToolCall>)
    ensures
        r@ == calls@,
{
    let mut r: Vec<ToolCall> = Vec::new();
    let mut i: usize = 0;
    while i < calls.len()
        invariant
            0 <= i <= calls@.len(),
            r@ == calls@.subrange(0, i as int),
        decreases calls@.len() - i,
    {
        let c = &calls[i];
        r.push(
            ToolCall {
                id: c.id.clone(),
                function: FunctionCall {
                    name: c.function.name.clone(),
                    arguments: c.function.arguments.clone(),
                },
            },
        );
        assert(r@ =~= calls@.subrange(0, i as int + 1));
        i = i + 1;
    }
    assert(calls@.subrange(0, i as int) =~= calls@);
    r
}

/// A message with the given role and content and nothing else.
pub fn plain_message(role: &str, content: String) -> (r: ChatMessage)
    ensures
        r.role@ == role@,
        r.content == content,
        r.tool_calls is None,
        r.tool_call_id is None,
        r.name is None,
{
    ChatMessage {
        role: String::from_str(role),
        content,
        tool_calls: None,
        tool_call_id: None,
        name: None,
    }
}

} // verus!
