//! The turn state machine and the context it carries through one request.

use vstd::prelude::*;
use std::collections::HashMap;
use crate::error::{error_text, Error};
use crate::llm::{ChatCompletionResponse, ChatMessage, Tool};
use crate::mcp::{McpToolCallRequest, McpToolCallResponse};

verus! {

#[derive(Debug, Clone, Copy, PartialEq, Eq, Structural)]
pub enum AgentState {
    ReadyToCallLlm,
    AwaitingLlmResponse,
    ExecutingTools,
    Done,
    Error,
}

#[derive(Debug, Clone, Copy, PartialEq, Eq, Structural)]
pub enum AgentEvent {
    ProcessInput,
    LlmRespondedWithContent,
    LlmRequestedTools,
    ToolsExecutionCompleted,
    ToolsExecutionFailed,
    ErrorOccurred,
}

/// The transition table: the state that `e` leads to from `s`, if `e` is
/// allowed there.
pub open spec fn next_state(s: AgentState, e: AgentEvent) -> Option<AgentState> {
    match (s, e) {
        (AgentState::ReadyToCallLlm, AgentEvent::ProcessInput) => Some(
            AgentState::AwaitingLlmResponse,
        ),
        (AgentState::ReadyToCallLlm, AgentEvent::ErrorOccurred) => Some(AgentState::Error),
        (AgentState::AwaitingLlmResponse, AgentEvent::LlmRespondedWithContent) => Some(
            AgentState::Done,
        ),
        (AgentState::AwaitingLlmResponse, AgentEvent::LlmRequestedTools) => Some(
            AgentState::ExecutingTools,
        ),
        (AgentState::AwaitingLlmResponse, AgentEvent::ErrorOccurred) => Some(AgentState::Error),
        (AgentState::ExecutingTools, AgentEvent::ToolsExecutionCompleted) => Some(
            AgentState::ReadyToCallLlm,
        ),
        (AgentState::ExecutingTools, AgentEvent::ToolsExecutionFailed) => Some(AgentState::Error),
        (AgentState::ExecutingTools, AgentEvent::ErrorOccurred) => Some(AgentState::Error),
        _ => None,
    }
}

pub open spec fn is_terminal_state(s: AgentState) -> bool {
    s == AgentState::Done || s == AgentState::Error
}

pub open spec fn state_name(s: AgentState) -> Seq<char> {
    match s {
        AgentState::ReadyToCallLlm => "ReadyToCallLlm"@,
        AgentState::AwaitingLlmResponse => "AwaitingLlmResponse"@,
        AgentState::ExecutingTools => "ExecutingTools"@,
        AgentState::Done => "Done"@,
        AgentState::Error => "Error"@,
    }
}

pub open spec fn event_name(e: AgentEvent) -> Seq<char> {
    match e {
        AgentEvent::ProcessInput => "ProcessInput"@,
        AgentEvent::LlmRespondedWithContent => "LlmRespondedWithContent"@,
        AgentEvent::LlmRequestedTools => "LlmRequestedTools"@,
        AgentEvent::ToolsExecutionCompleted => "ToolsExecutionCompleted"@,
        AgentEvent::ToolsExecutionFailed => "ToolsExecutionFailed"@,
        AgentEvent::ErrorOccurred => "ErrorOccurred"@,
    }
}

/// The error for an event that `s` does not allow.
pub open spec fn is_invalid_transition(err: Error, s: AgentState, e: AgentEvent) -> bool {
    match err {
        Error::InvalidTransition { current, requested } => current@ == state_name(s)
            && requested@ == event_name(e),
        _ => false,
    }
}

/// The turn-budget error for a budget of `max_turns`.
pub open spec fn is_max_turns_error(err: Error, max_turns: usize) -> bool {
    match err {
        Error::MaxTurnsExceeded { max_turns: m } => m == max_turns,
        _ => false,
    }
}

impl AgentState {
    pub fn name(&self) -> (r: String)
        ensures
            r@ == state_name(*self),
    {
        match self {
            AgentState::ReadyToCallLlm => String::from_str("ReadyToCallLlm"),
            AgentState::AwaitingLlmResponse => String::from_str("AwaitingLlmResponse"),
            AgentState::ExecutingTools => String::from_str("ExecutingTools"),
            AgentState::Done => String::from_str("Done"),
            AgentState::Error => String::from_str("Error"),
        }
    }
}

impl AgentEvent {
    pub fn name(&self) -> (r: String)
        ensures
            r@ == event_name(*self),
    {
        match self {
            AgentEvent::ProcessInput => String::from_str("ProcessInput"),
            AgentEvent::LlmRespondedWithContent => String::from_str("LlmRespondedWithContent"),
            AgentEvent::LlmRequestedTools => String::from_str("LlmRequestedTools"),
            AgentEvent::ToolsExecutionCompleted => String::from_str("ToolsExecutionCompleted"),
            AgentEvent::ToolsExecutionFailed => String::from_str("ToolsExecutionFailed"),
            AgentEvent::ErrorOccurred => String::from_str("ErrorOccurred"),
        }
    }
}

/// The turn budget that a fresh context starts with.
pub const DEFAULT_MAX_TURNS: usize = 5;

/// The state of one request: the transcript, the tool catalog, the turn
/// counter and budget, and the tool calls in flight with the ids of the
/// language-model calls they answer (`tool_call_id_mapping`, by position).
#[derive(Debug, Clone)]
pub struct AgentContext {
    pub messages: Vec<ChatMessage>,
    pub available_tools: Vec<Tool>,
    pub mcp_clients: HashMap<String, String>,
    pub current_turn: usize,
    pub max_turns: usize,
    pub pending_tool_calls: Vec<McpToolCallRequest>,
    pub tool_call_results: Vec<McpToolCallResponse>,
    pub tool_call_id_mapping: Vec<String>,
    pub last_error: Option<String>,
    pub llm_response: Option<ChatCompletionResponse>,
    pub final_content: Option<String>,
}

impl AgentContext {
    pub fn new(
        initial_messages: Vec<ChatMessage>,
        available_tools: Vec<Tool>,
        mcp_clients: HashMap<String, String>,
    ) -> (r: Self)
        ensures
            r.messages == initial_messages,
            r.available_tools == available_tools,
            r.mcp_clients == mcp_clients,
            r.current_turn == 0,
            r.max_turns == DEFAULT_MAX_TURNS,
            r.pending_tool_calls@.len() == 0,
            r.tool_call_results@.len() == 0,
            r.tool_call_id_mapping@.len() == 0,
            r.last_error is None,
            r.llm_response is None,
            r.final_content is None,
    {
        AgentContext {
            messages: initial_messages,
            available_tools,
            mcp_clients,
            current_turn: 0,
            max_turns: DEFAULT_MAX_TURNS,
            pending_tool_calls: Vec::new(),
            tool_call_results: Vec::new(),
            tool_call_id_mapping: Vec::new(),
            last_error: None,
            llm_response: None,
            final_content: None,
        }
    }

    pub fn add_message(&mut self, message: ChatMessage)
        ensures
            *final(self) == (AgentContext { messages: final(self).messages, ..*old(self) }),
            final(self).messages@ == old(self).messages@.push(message),
    {
        self.messages.push(message);
    }

    pub fn increment_turn(&mut self)
        requires
            old(self).current_turn < usize::MAX,
        ensures
            *final(self) == (AgentContext { current_turn: final(self).current_turn, ..*old(self) }),
            final(self).current_turn == old(self).current_turn + 1,
    {
        self.current_turn = self.current_turn + 1;
    }

    pub fn set_error(&mut self, error: String)
        ensures
            *final(self) == (AgentContext { last_error: Some(error), ..*old(self) }),
    {
        self.last_error = Some(error);
    }

    pub fn clear_error(&mut self)
        ensures
            *final(self) == (AgentContext { last_error: None, ..*old(self) }),
    {
        self.last_error = None;
    }

    pub fn has_reached_max_turns(&self) -> (r: bool)
        ensures
            r == (self.current_turn >= self.max_turns),
    {
        self.current_turn >= self.max_turns
    }

    pub fn set_pending_tool_calls(&mut self, calls: Vec<McpToolCallRequest>)
        ensures
            *final(self) == (AgentContext { pending_tool_calls: calls, ..*old(self) }),
    {
        self.pending_tool_calls = calls;
    }

    pub fn add_tool_call_result(&mut self, result: McpToolCallResponse)
        ensures
            *final(self) == (AgentContext {
                tool_call_results: final(self).tool_call_results,
                ..*old(self)
            }),
            final(self).tool_call_results@ == old(self).tool_call_results@.push(result),
    {
        self.tool_call_results.push(result);
    }

    pub fn clear_tool_calls(&mut self)
        ensures
            *final(self) == (AgentContext {
                pending_tool_calls: final(self).pending_tool_calls,
                tool_call_results: final(self).tool_call_results,
                tool_call_id_mapping: final(self).tool_call_id_mapping,
                ..*old(self)
            }),
            final(self).pending_tool_calls@.len() == 0,
            final(self).tool_call_results@.len() == 0,
            final(self).tool_call_id_mapping@.len() == 0,
    {
        self.pending_tool_calls.clear();
        self.tool_call_results.clear();
        self.tool_call_id_mapping.clear();
    }

    pub fn is_max_turns_reached(&self) -> (r: bool)
        ensures
            r == (self.current_turn >= self.max_turns),
    {
        self.current_turn >= self.max_turns
    }
}

/// The state machine of one request: its state and its context. The state
/// changes only through `transition`.
pub struct AgentStateMachine {
    pub state: AgentState,
    pub context: AgentContext,
}

impl AgentStateMachine {
    /// The current state.
    pub open spec fn state(&self) -> AgentState {
        self.state
    }

    pub fn new(
        initial_messages: Vec<ChatMessage>,
        available_tools: Vec<Tool>,
        mcp_clients: HashMap<String, String>,
    ) -> (r: Self)
        ensures
            r.state() == AgentState::ReadyToCallLlm,
            r.context.messages == initial_messages,
            r.context.available_tools == available_tools,
            r.context.mcp_clients == mcp_clients,
            r.context.current_turn == 0,
            r.context.max_turns == DEFAULT_MAX_TURNS,
            r.context.pending_tool_calls@.len() == 0,
            r.context.tool_call_results@.len() == 0,
            r.context.tool_call_id_mapping@.len() == 0,
            r.context.last_error is None,
            r.context.llm_response is None,
            r.context.final_content is None,
    {
        AgentStateMachine {
            state: AgentState::ReadyToCallLlm,
            context: AgentContext::new(initial_messages, available_tools, mcp_clients),
        }
    }

    pub fn current_state(&self) -> (r: &AgentState)
        ensures
            *r == self.state(),
    {
        &self.state
    }

    /// Applies `event`; an event that the table does not allow in the current
    /// state fails with `InvalidTransition` and changes nothing.
    pub fn transition(&mut self, event: AgentEvent) -> (r: Result<(), Error>)
        ensures
            final(self).context == old(self).context,
            match next_state(old(self).state(), event) {
                Some(s) => r is Ok && final(self).state() == s,
                None => r is Err && is_invalid_transition(r->Err_0, old(self).state(), event)
                    && final(self).state() == old(self).state(),
            },
    {
        let next = match (self.state, event) {
            (AgentState::ReadyToCallLlm, AgentEvent::ProcessInput) => Some(
                AgentState::AwaitingLlmResponse,
            ),
            (AgentState::ReadyToCallLlm, AgentEvent::ErrorOccurred) => Some(AgentState::Error),
            (AgentState::AwaitingLlmResponse, AgentEvent::LlmRespondedWithContent) => Some(
                AgentState::Done,
            ),
            (AgentState::AwaitingLlmResponse, AgentEvent::LlmRequestedTools) => Some(
                AgentState::ExecutingTools,
            ),
            (AgentState::AwaitingLlmResponse, AgentEvent::ErrorOccurred) => Some(
                AgentState::Error,
            ),
            (AgentState::ExecutingTools, AgentEvent::ToolsExecutionCompleted) => Some(
                AgentState::ReadyToCallLlm,
            ),
            (AgentState::ExecutingTools, AgentEvent::ToolsExecutionFailed) => Some(
                AgentState::Error,
            ),
            (AgentState::ExecutingTools, AgentEvent::ErrorOccurred) => Some(AgentState::Error),
            _ => None,
        };
        match next {
            Some(s) => {
                self.state = s;
                Ok(())
            },
            None => Err(
                Error::InvalidTransition { current: self.state.name(), requested: event.name() },
            ),
        }
    }

    pub fn is_terminal(&self) -> (r: bool)
        ensures
            r == is_terminal_state(self.state()),
    {
        match self.state {
            AgentState::Done | AgentState::Error => true,
            _ => false,
        }
    }

    /// Handles `event`. `ProcessInput` in `ReadyToCallLlm` spends one turn
    /// of the budget: where the budget is spent it fails with
    /// `MaxTurnsExceeded` and moves to `Error` with the turn count kept,
    /// else it counts the turn and moves to `AwaitingLlmResponse`. Any other
    /// event follows the transition table (see `transition`).
    pub fn process_event(&mut self, event: AgentEvent) -> (r: Result<(), Error>)
        ensures
            !(old(self).state() == AgentState::ReadyToCallLlm && event == AgentEvent::ProcessInput)
                ==> {
                &&& final(self).context == old(self).context
                &&& match next_state(old(self).state(), event) {
                    Some(s) => r is Ok && final(self).state() == s,
                    None => r is Err && is_invalid_transition(r->Err_0, old(self).state(), event)
                        && final(self).state() == old(self).state(),
                }
            },
            old(self).state() == AgentState::ReadyToCallLlm && event == AgentEvent::ProcessInput
                && old(self).context.current_turn >= old(self).context.max_turns ==> {
                &&& r is Err
                &&& is_max_turns_error(r->Err_0, old(self).context.max_turns)
                &&& final(self).state() == AgentState::Error
                &&& final(self).context == (AgentContext {
                    last_error: final(self).context.last_error,
                    ..old(self).context
                })
                &&& final(self).context.last_error is Some
                &&& final(self).context.last_error.unwrap()@ == error_text(r->Err_0)
            },
            old(self).state() == AgentState::ReadyToCallLlm && event == AgentEvent::ProcessInput
                && old(self).context.current_turn < old(self).context.max_turns ==> {
                &&& r is Ok
                &&& final(self).state() == AgentState::AwaitingLlmResponse
                &&& final(self).context == (AgentContext {
                    current_turn: final(self).context.current_turn,
                    ..old(self).context
                })
                &&& final(self).context.current_turn == old(self).context.current_turn + 1
            },
    {
        if self.state == AgentState::ReadyToCallLlm && event == AgentEvent::ProcessInput {
            if self.context.current_turn >= self.context.max_turns {
                let err = Error::MaxTurnsExceeded { max_turns: self.context.max_turns };
                self.state = AgentState::Error;
                self.context.last_error = Some(err.message());
                return Err(err);
            }
            self.context.current_turn = self.context.current_turn + 1;
        }
        self.transition(event)
    }

    /// A copy of the tool calls waiting to be executed.
    pub fn prepare_tool_execution(&mut self) -> (r: Vec<McpToolCallRequest>)
        ensures
            *final(self) == *old(self),
            r@.len() == old(self).context.pending_tool_calls@.len(),
            forall|i: int|
                0 <= i < r@.len() ==> (#[trigger] r@[i]).name
                    == old(self).context.pending_tool_calls@[i].name && r@[i].arguments@
                    == old(self).context.pending_tool_calls@[i].arguments@,
    {
        let mut r: Vec<McpToolCallRequest> = Vec::new();
        let mut i: usize = 0;
        while i < self.context.pending_tool_calls.len()
            invariant
                0 <= i <= self.context.pending_tool_calls@.len(),
                r@.len() == i,
                forall|j: int|
                    0 <= j < i ==> (#[trigger] r@[j]).name
                        == self.context.pending_tool_calls@[j].name && r@[j].arguments@
                        == self.context.pending_tool_calls@[j].arguments@,
            decreases self.context.pending_tool_calls@.len() - i,
        {
            r.push(self.context.pending_tool_calls[i].clone());
            i = i + 1;
        }
        r
    }

    /// Appends `results` to the collected tool results.
    pub fn add_tool_execution_results(&mut self, results: Vec<McpToolCallResponse>)
        ensures
            final(self).state() == old(self).state(),
            final(self).context == (AgentContext {
                tool_call_results: final(self).context.tool_call_results,
                ..old(self).context
            }),
            final(self).context.tool_call_results@ == old(self).context.tool_call_results@
                + results@,
    {
        let mut results = results;
        self.context.tool_call_results.append(&mut results);
    }

    /// The content of the last message of the transcript, or the empty text.
    pub fn get_final_content(&self) -> (r: &str)
        ensures
            self.context.messages@.len() > 0 ==> r@ == self.context.messages@.last().content@,
            self.context.messages@.len() == 0 ==> r@ == Seq::<char>::empty(),
    {
        let n = self.context.messages.len();
        if n > 0 {
            self.context.messages[n - 1].content.as_str()
        } else {
            proof {
                reveal_strlit("");
            }
            ""
        }
    }

    /// The recorded error text, if any.
    pub fn get_last_error(&self) -> (r: Option<&str>)
        ensures
            r is Some == self.context.last_error is Some,
            r is Some ==> r.unwrap()@ == self.context.last_error.unwrap()@,
    {
        match &self.context.last_error {
            Some(s) => Some(s.as_str()),
            None => None,
        }
    }
}

} // verus!
