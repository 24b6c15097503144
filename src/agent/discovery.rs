//! The decisions of tool-server discovery: what the handshake announces,
//! which prompts are fetched, and which text of a prompt becomes a
//! system-prompt fragment.

use vstd::prelude::*;
use crate::agent::router::string_views;
use crate::mcp::{
    text_of, McpClientCapabilities, McpGetPromptResponse, McpInitializeRequest,
    McpInitializeResponse, McpPrompt, McpPromptMessage, McpRootsCapability,
};

verus! {

/// The names of the prompts that take no argument, in listing order.
pub open spec fn argumentless(prompts: Seq<McpPrompt>) -> Seq<Seq<char>>
    decreases prompts.len(),
{
    if prompts.len() == 0 {
        Seq::empty()
    } else if prompts.last().arguments@.len() == 0 {
        argumentless(prompts.drop_last()).push(prompts.last().name@)
    } else {
        argumentless(prompts.drop_last())
    }
}

/// The text of the first assistant message, where that message is text.
pub open spec fn fragment_of(messages: Seq<McpPromptMessage>) -> Option<Seq<char>>
    decreases messages.len(),
{
    if messages.len() == 0 {
        None
    } else if messages[0].role@ == "assistant"@ {
        text_of(messages[0].content)
    } else {
        fragment_of(messages.drop_first())
    }
}

/// What this client announces in the handshake: roots, without change
/// notifications, and no sampling.
pub fn handshake_request() -> (r: McpInitializeRequest)
    ensures
        r.capabilities.roots == Some(McpRootsCapability { list_changed: false }),
        r.capabilities.sampling is None,
{
    McpInitializeRequest {
        capabilities: McpClientCapabilities {
            roots: Some(McpRootsCapability { list_changed: false }),
            sampling: None,
        },
    }
}

/// Whether the server offers prompts, so that they are listed.
pub fn advertises_prompts(response: &McpInitializeResponse) -> (r: bool)
    ensures
        r == response.capabilities.prompts is Some,
{
    response.capabilities.prompts.is_some()
}

/// The names of the prompts to fetch as system-prompt candidates: those
/// that take no argument, in listing order.
pub fn prompts_to_fetch(prompts: &Vec<McpPrompt>) -> (r: Vec<String>)
    ensures
        string_views(r@) == argumentless(prompts@),
{
    let mut r: Vec<String> = Vec::new();
    let mut i: usize = 0;
    while i < prompts.len()
        invariant
            0 <= i <= prompts@.len(),
            string_views(r@) == argumentless(prompts@.subrange(0, i as int)),
        decreases prompts@.len() - i,
    {
        let ghost prev = r@;
        proof {
            assert(prompts@.subrange(0, i as int + 1).drop_last() =~= prompts@.subrange(0, i as int));
        }
        if prompts[i].arguments.len() == 0 {
            r.push(prompts[i].name.clone());
            proof {
                assert(string_views(r@) =~= string_views(prev).push(prompts@[i as int].name@));
            }
        }
        i = i + 1;
    }
    assert(prompts@.subrange(0, i as int) =~= prompts@);
    r
}

/// The system-prompt fragment that a fetched prompt contributes: the text
/// of its first assistant message, where that message is text.
pub fn prompt_fragment(response: &McpGetPromptResponse) -> (r: Option<String>)
    ensures
        match fragment_of(response.messages@) {
            Some(t) => r is Some && r.unwrap()@ == t,
            None => r is None,
        },
{
    let ghost all = response.messages@;
    proof {
        reveal_strlit("assistant");
    }
    let assistant = String::from_str("assistant");
    assert(all.subrange(0, all.len() as int) =~= all);
    let mut i: usize = 0;
    while i < response.messages.len()
        invariant
            0 <= i <= all.len(),
            all == response.messages@,
            assistant@ == "assistant"@,
            fragment_of(all) == fragment_of(all.subrange(i as int, all.len() as int)),
        decreases all.len() - i,
    {
        let ghost rest = all.subrange(i as int, all.len() as int);
        assert(rest[0] == all[i as int]);
        if response.messages[i].role == assistant {
            return match &response.messages[i].content {
                crate::mcp::McpContent::Text { text } => Some(text.clone()),
                _ => None,
            };
        }
        assert(rest.drop_first() =~= all.subrange(i as int + 1, all.len() as int));
        i = i + 1;
    }
    None
}

} // verus!
