//! The executor's decisions for one request. A `Conversation` owns the turn
//! state machine; its caller performs the actions that it asks for (call the
//! language model, execute tool calls) and hands back what came of them,
//! until it is told to finish or to fail.

use vstd::prelude::*;
use crate::agent::fsm::{
    AgentEvent, AgentState, AgentStateMachine, is_invalid_transition, is_max_turns_error,
    is_terminal_state, next_state,
};
use crate::agent::router::string_views;
use crate::error::{error_text, Error};
use crate::history::Message;
use crate::json::{is_json_object_text, json_object_of, tool_arguments};
use crate::llm::{
    call_ids, copy_calls, plain_message, ChatCompletionResponse, ChatMessage, Tool, ToolCall,
};
use crate::mcp::{result_text, McpToolCallRequest, McpToolCallResponse};

verus! {

/// What the caller of a conversation does next.
#[derive(Debug)]
pub enum TurnAction {
    /// Send the transcript and the tool catalog to the language model, and
    /// hand its answer to `on_llm_response` (or its failure to
    /// `on_llm_failure`).
    CallLlm,
    /// Execute these tool calls and hand their results, in this order, to
    /// `on_tool_results`.
    ExecuteTools(Vec<McpToolCallRequest>),
    /// The request is answered with this content.
    Finish(String),
    /// The request failed with this error.
    Fail(Error),
}

/// One request in progress: the state machine, and the count of handled
/// events with its ceiling, a guard independent of the turn budget.
pub struct Conversation {
    pub fsm: AgentStateMachine,
    pub steps: usize,
    pub max_steps: usize,
}

/// The event that a language-model response raises.
pub open spec fn response_event(resp: ChatCompletionResponse) -> AgentEvent {
    if resp.choices@.len() == 0 {
        AgentEvent::ErrorOccurred
    } else if requests_tools(resp) {
        AgentEvent::LlmRequestedTools
    } else {
        AgentEvent::LlmRespondedWithContent
    }
}

/// The first choice of the response carries at least one tool call.
pub open spec fn requests_tools(resp: ChatCompletionResponse) -> bool {
    &&& resp.choices@.len() > 0
    &&& resp.choices@[0].message.tool_calls is Some
    &&& resp.choices@[0].message.tool_calls.unwrap()@.len() > 0
}

/// The assistant message that records the first choice of a response.
pub open spec fn is_assistant_record(m: ChatMessage, choice: ChatMessage) -> bool {
    &&& m.role@ == "assistant"@
    &&& m.content == choice.content
    &&& match (m.tool_calls, choice.tool_calls) {
        (Some(a), Some(b)) => a@ == b@,
        (None, None) => true,
        _ => false,
    }
    &&& m.tool_call_id is None
    &&& m.name is None
}

/// The tool message that answers the call with id `id`.
pub open spec fn is_tool_reply(m: ChatMessage, content: Seq<char>, id: Seq<char>) -> bool {
    &&& m.role@ == "tool"@
    &&& m.content@ == content
    &&& m.tool_call_id is Some
    &&& m.tool_call_id.unwrap()@ == id
    &&& m.tool_calls is None
    &&& m.name is None
}

/// A tool call request for the function `name`, with its arguments read from
/// the JSON text `arguments`.
pub open spec fn is_request_for(q: McpToolCallRequest, name: Seq<char>, arguments: Seq<char>) -> bool {
    &&& q.name@ == name
    &&& is_json_object_text(arguments) ==> q.arguments@ == json_object_of(arguments)
    &&& !is_json_object_text(arguments) ==> q.arguments@ == Map::<String, serde_json::Value>::empty()
}

/// How a step may move the turn counter: up by one exactly when it asks for
/// a language-model call, never past the budget, and not at all from a
/// terminal state.
pub open spec fn budget_step(before: Conversation, r: TurnAction, after: Conversation) -> bool {
    &&& after.fsm.context.max_turns == before.fsm.context.max_turns
    &&& after.fsm.context.current_turn == before.fsm.context.current_turn + if r is CallLlm {
        1int
    } else {
        0int
    }
    &&& after.fsm.context.current_turn <= after.fsm.context.max_turns
    &&& is_terminal_state(before.fsm.state()) ==> !(r is CallLlm) && after.fsm.state()
        == before.fsm.state()
}

/// The number of language-model calls that `actions` ask for.
pub open spec fn llm_calls(actions: Seq<TurnAction>) -> nat
    decreases actions.len(),
{
    if actions.len() == 0 {
        0
    } else {
        llm_calls(actions.drop_last()) + if actions.last() is CallLlm {
            1nat
        } else {
            0nat
        }
    }
}

/// Over any run of a conversation that starts with no turn taken, the
/// language model is asked at most `max_turns` times.
pub proof fn lemma_turn_budget(states: Seq<Conversation>, actions: Seq<TurnAction>)
    requires
        states.len() == actions.len() + 1,
        states[0].fsm.context.current_turn == 0,
        forall|i: int|
            0 <= i < actions.len() ==> budget_step(
                #[trigger] states[i],
                actions[i],
                states[i + 1],
            ),
    ensures
        llm_calls(actions) <= states[0].fsm.context.max_turns,
        llm_calls(actions) == states[actions.len() as int].fsm.context.current_turn,
    decreases actions.len(),
{
    if actions.len() > 0 {
        let n = actions.len() - 1;
        lemma_turn_budget(states.drop_last(), actions.drop_last());
        assert(budget_step(states[n], actions[n], states[n + 1]));
        assert(states.drop_last()[n] == states[n]);
        assert(states.drop_last()[0] == states[0]);
        assert forall|i: int| 0 <= i <= n implies #[trigger] states[i].fsm.context.max_turns
            == states[0].fsm.context.max_turns by {
            lemma_budget_keeps_max(states, actions, i);
        }
    }
}

proof fn lemma_budget_keeps_max(states: Seq<Conversation>, actions: Seq<TurnAction>, i: int)
    requires
        states.len() == actions.len() + 1,
        0 <= i < states.len(),
        forall|k: int|
            0 <= k < actions.len() ==> budget_step(
                #[trigger] states[k],
                actions[k],
                states[k + 1],
            ),
    ensures
        states[i].fsm.context.max_turns == states[0].fsm.context.max_turns,
    decreases i,
{
    if i > 0 {
        lemma_budget_keeps_max(states, actions, i - 1);
        assert(budget_step(states[i - 1], actions[i - 1], states[i]));
    }
}

/// Where the step ceiling is at least twice the turn budget, every answer
/// of the language model and every batch of tool results arrives below the
/// ceiling: a run within the turn budget is never cut by it.
pub proof fn lemma_ceiling_unreached(c: Conversation)
    requires
        c.wf(),
        c.max_steps >= 2 * c.fsm.context.max_turns,
    ensures
        c.fsm.state() == AgentState::AwaitingLlmResponse || c.fsm.state()
            == AgentState::ExecutingTools ==> c.steps < c.max_steps,
{
}

/// The step ceiling for a budget of `max_turns` language-model calls: two
/// handled events per turn, or the largest count where that does not fit.
pub fn step_ceiling(max_turns: usize) -> (r: usize)
    ensures
        max_turns <= usize::MAX / 2 ==> r == 2 * max_turns,
        max_turns > usize::MAX / 2 ==> r == usize::MAX,
{
    if max_turns <= usize::MAX / 2 {
        2 * max_turns
    } else {
        usize::MAX
    }
}

/// The transcript that a request starts from: the system prompt (where it is
/// not empty), the earlier messages of the session by role and content, and
/// the new user input.
pub open spec fn seeds(
    t: Seq<ChatMessage>,
    system_prompt: Seq<char>,
    history: Seq<Message>,
    input: Seq<char>,
) -> bool {
    let offset: int = if system_prompt.len() > 0 { 1 } else { 0 };
    &&& t.len() == offset + history.len() + 1
    &&& system_prompt.len() > 0 ==> t[0].role@ == "system"@ && t[0].content@ == system_prompt
        && t[0].tool_calls is None && t[0].tool_call_id is None
    &&& forall|i: int|
        0 <= i < history.len() ==> (#[trigger] t[offset + i]).role == history[i].role
            && t[offset + i].content == history[i].content && t[offset + i].tool_calls is None
            && t[offset + i].tool_call_id is None
    &&& t.last().role@ == "user"@ && t.last().content@ == input && t.last().tool_calls is None
        && t.last().tool_call_id is None
}

/// The transcript that a request starts from (see `seeds`).
pub fn seed_transcript(system_prompt: String, history: Vec<Message>, input: &str) -> (r: Vec<
    ChatMessage,
>)
    ensures
        seeds(r@, system_prompt@, history@, input@),
{
    let ghost hist = history@;
    let ghost sp = system_prompt@;
    let mut r: Vec<ChatMessage> = Vec::new();
    if !system_prompt.as_str().is_empty() {
        r.push(plain_message("system", system_prompt));
    }
    let ghost offset: int = r@.len() as int;
    proof {
        reveal_strlit("system");
        reveal_strlit("user");
    }
    let mut rest = history;
    let ghost mut i: int = 0;
    while rest.len() > 0
        invariant
            0 <= i <= hist.len(),
            rest@ == hist.subrange(i, hist.len() as int),
            offset == (if sp.len() > 0 { 1int } else { 0int }),
            r@.len() == offset + i,
            sp.len() > 0 ==> r@[0].role@ == "system"@ && r@[0].content@ == sp
                && r@[0].tool_calls is None && r@[0].tool_call_id is None,
            forall|k: int|
                0 <= k < i ==> (#[trigger] r@[offset + k]).role == hist[k].role && r@[offset
                    + k].content == hist[k].content && r@[offset + k].tool_calls is None
                    && r@[offset + k].tool_call_id is None,
        decreases rest@.len(),
    {
        let m = rest.remove(0);
        assert(m == hist[i]);
        r.push(
            ChatMessage {
                role: m.role,
                content: m.content,
                tool_calls: None,
                tool_call_id: None,
                name: None,
            },
        );
        proof {
            i = i + 1;
        }
    }
    r.push(plain_message("user", String::from_str(input)));
    r
}

impl Conversation {
    /// Handled events stay within two per turn taken: one answer of the
    /// language model and one batch of tool results.
    pub open spec fn paced(&self) -> bool {
        let turn = self.fsm.context.current_turn;
        match self.fsm.state() {
            AgentState::ReadyToCallLlm => self.steps <= 2 * turn,
            AgentState::AwaitingLlmResponse => turn >= 1 && self.steps + 2 <= 2 * turn,
            AgentState::ExecutingTools => turn >= 1 && self.steps + 1 <= 2 * turn,
            _ => true,
        }
    }

    /// The conversation's invariant: `consistent` and `paced`.
    pub open spec fn wf(&self) -> bool {
        self.consistent() && self.paced()
    }

    /// The turn counter within its budget, and, while tools run, one
    /// recorded id per pending call, equal by position to the ids of the tool
    /// calls in the last message, an assistant message.
    pub open spec fn consistent(&self) -> bool {
        &&& self.fsm.context.current_turn <= self.fsm.context.max_turns
        &&& self.fsm.state() == AgentState::ExecutingTools ==> {
            &&& self.fsm.context.messages@.len() > 0
            &&& self.fsm.context.messages@.last().role@ == "assistant"@
            &&& self.fsm.context.pending_tool_calls@.len()
                == self.fsm.context.tool_call_id_mapping@.len()
            &&& call_ids(self.fsm.context.messages@.last()) == string_views(
                self.fsm.context.tool_call_id_mapping@,
            )
        }
    }

    /// A conversation over `messages` with the tool catalog `tools`, a
    /// budget of `max_turns` language-model calls, and at most `max_steps`
    /// handled events.
    pub fn new(messages: Vec<ChatMessage>, tools: Vec<Tool>, max_turns: usize, max_steps: usize) -> (r:
        Conversation)
        ensures
            r.wf(),
            r.fsm.state() == AgentState::ReadyToCallLlm,
            r.fsm.context.messages == messages,
            r.fsm.context.available_tools == tools,
            r.fsm.context.current_turn == 0,
            r.fsm.context.max_turns == max_turns,
            r.steps == 0,
            r.max_steps == max_steps,
    {
        let mut fsm = AgentStateMachine::new(messages, tools, std::collections::HashMap::new());
        fsm.context.max_turns = max_turns;
        Conversation { fsm, steps: 0, max_steps }
    }

    /// A conversation with the step ceiling that `step_ceiling` gives for
    /// `max_turns`.
    pub fn with_budget(messages: Vec<ChatMessage>, tools: Vec<Tool>, max_turns: usize) -> (r:
        Conversation)
        ensures
            r.wf(),
            r.fsm.state() == AgentState::ReadyToCallLlm,
            r.fsm.context.messages == messages,
            r.fsm.context.available_tools == tools,
            r.fsm.context.current_turn == 0,
            r.fsm.context.max_turns == max_turns,
            r.steps == 0,
            max_turns <= usize::MAX / 2 ==> r.max_steps == 2 * max_turns,
    {
        Conversation::new(messages, tools, max_turns, step_ceiling(max_turns))
    }

    /// Moves to `Error` through `event`, records `err`, and reports it.
    fn fail(&mut self, event: AgentEvent, err: Error) -> (r: TurnAction)
        requires
            old(self).consistent(),
            next_state(old(self).fsm.state(), event) == Some(AgentState::Error),
        ensures
            final(self).wf(),
            r == TurnAction::Fail(err),
            final(self).fsm.state() == AgentState::Error,
            final(self).fsm.context.last_error is Some,
            final(self).fsm.context.last_error.unwrap()@ == error_text(err),
            final(self).fsm.context.pending_tool_calls == old(self).fsm.context.pending_tool_calls,
            final(self).fsm.context.tool_call_id_mapping == old(self).fsm.context.tool_call_id_mapping,
            final(self).fsm.context.tool_call_results == old(self).fsm.context.tool_call_results,
            final(self).fsm.context.messages == old(self).fsm.context.messages,
            final(self).fsm.context.current_turn == old(self).fsm.context.current_turn,
            final(self).fsm.context.max_turns == old(self).fsm.context.max_turns,
            final(self).steps == old(self).steps,
            final(self).fsm.context.available_tools == old(self).fsm.context.available_tools,
            final(self).max_steps == old(self).max_steps,
    {
        let _ = self.fsm.transition(event);
        self.fsm.context.last_error = Some(err.message());
        TurnAction::Fail(err)
    }

    /// Counts one handled event, or fails with an internal error where the
    /// ceiling is reached.
    fn count_step(&mut self) -> (r: Option<TurnAction>)
        requires
            old(self).wf(),
            !is_terminal_state(old(self).fsm.state()),
        ensures
            final(self).consistent(),
            old(self).steps >= old(self).max_steps ==> final(self).wf(),
            final(self).fsm.context.current_turn == old(self).fsm.context.current_turn,
            final(self).fsm.context.max_turns == old(self).fsm.context.max_turns,
            final(self).max_steps == old(self).max_steps,
            final(self).fsm.context.available_tools == old(self).fsm.context.available_tools,
            old(self).steps >= old(self).max_steps ==> final(self).steps == old(self).steps,
            old(self).steps >= old(self).max_steps ==> r is Some && r.unwrap() is Fail
                && r.unwrap()->Fail_0 is Internal && final(self).fsm.state() == AgentState::Error
                && final(self).fsm.context.messages == old(self).fsm.context.messages,
            old(self).steps < old(self).max_steps ==> r is None && final(self).steps
                == old(self).steps + 1 && final(self).fsm == old(self).fsm,
    {
        if self.steps >= self.max_steps {
            let msg = String::from_str("FSM loop iteration limit exceeded");
            Some(self.fail(AgentEvent::ErrorOccurred, Error::Internal(msg)))
        } else {
            self.steps = self.steps + 1;
            None
        }
    }

    /// From `ReadyToCallLlm`: fails with `MaxTurnsExceeded` where the budget
    /// is spent, else takes a turn and asks for a language-model call.
    fn begin_turn(&mut self) -> (r: TurnAction)
        requires
            old(self).wf(),
            old(self).fsm.state() == AgentState::ReadyToCallLlm,
        ensures
            final(self).wf(),
            budget_step(*old(self), r, *final(self)),
            final(self).fsm.context.available_tools == old(self).fsm.context.available_tools,
            final(self).fsm.context.pending_tool_calls == old(self).fsm.context.pending_tool_calls,
            final(self).fsm.context.tool_call_id_mapping == old(self).fsm.context.tool_call_id_mapping,
            final(self).fsm.context.tool_call_results == old(self).fsm.context.tool_call_results,
            final(self).fsm.context.messages == old(self).fsm.context.messages,
            final(self).steps == old(self).steps,
            final(self).max_steps == old(self).max_steps,
            old(self).fsm.context.current_turn >= old(self).fsm.context.max_turns ==> r is Fail
                && is_max_turns_error(r->Fail_0, old(self).fsm.context.max_turns)
                && final(self).fsm.state() == AgentState::Error,
            old(self).fsm.context.current_turn < old(self).fsm.context.max_turns ==> r is CallLlm
                && final(self).fsm.state() == AgentState::AwaitingLlmResponse
                && final(self).fsm.context.llm_response is None,
    {
        match self.fsm.process_event(AgentEvent::ProcessInput) {
            Ok(()) => {
                self.fsm.context.llm_response = None;
                TurnAction::CallLlm
            },
            Err(e) => TurnAction::Fail(e),
        }
    }

    /// Starts the request: the first `ProcessInput`.
    pub fn start(&mut self) -> (r: TurnAction)
        requires
            old(self).wf(),
        ensures
            final(self).wf(),
            budget_step(*old(self), r, *final(self)),
            final(self).max_steps == old(self).max_steps,
            final(self).fsm.context.available_tools == old(self).fsm.context.available_tools,
            final(self).steps == old(self).steps,
            final(self).fsm.context.messages == old(self).fsm.context.messages,
            old(self).fsm.state() != AgentState::ReadyToCallLlm ==> r is Fail && is_invalid_transition(
                r->Fail_0,
                old(self).fsm.state(),
                AgentEvent::ProcessInput,
            ) && *final(self) == *old(self),
            old(self).fsm.state() == AgentState::ReadyToCallLlm && old(self).fsm.context.current_turn
                >= old(self).fsm.context.max_turns ==> r is Fail && is_max_turns_error(
                r->Fail_0,
                old(self).fsm.context.max_turns,
            ) && final(self).fsm.state() == AgentState::Error,
            old(self).fsm.state() == AgentState::ReadyToCallLlm && old(self).fsm.context.current_turn
                < old(self).fsm.context.max_turns ==> r is CallLlm && final(self).fsm.state()
                == AgentState::AwaitingLlmResponse,
    {
        if self.fsm.state == AgentState::ReadyToCallLlm {
            self.begin_turn()
        } else {
            match self.fsm.transition(AgentEvent::ProcessInput) {
                Ok(()) => TurnAction::CallLlm,
                Err(e) => TurnAction::Fail(e),
            }
        }
    }

    /// The error for `event` arriving in the current state, which the
    /// handler of `event` does not accept.
    fn refuse(&self, event: AgentEvent) -> (r: TurnAction)
        ensures
            r is Fail && is_invalid_transition(r->Fail_0, self.fsm.state(), event),
    {
        TurnAction::Fail(
            Error::InvalidTransition { current: self.fsm.state.name(), requested: event.name() },
        )
    }

    /// Handles the language model's answer to the last call. Only the first
    /// choice is read: tool calls there are recorded in an assistant message
    /// and handed out for execution, in order, with their ids kept by
    /// position; otherwise its content is recorded and is the answer.
    pub fn on_llm_response(&mut self, response: ChatCompletionResponse) -> (r: TurnAction)
        requires
            old(self).wf(),
        ensures
            final(self).wf(),
            budget_step(*old(self), r, *final(self)),
            final(self).max_steps == old(self).max_steps,
            final(self).fsm.context.available_tools == old(self).fsm.context.available_tools,
            old(self).fsm.state() != AgentState::AwaitingLlmResponse ==> r is Fail
                && is_invalid_transition(
                r->Fail_0,
                old(self).fsm.state(),
                response_event(response),
            ) && *final(self) == *old(self),
            old(self).fsm.state() == AgentState::AwaitingLlmResponse && old(self).steps >= old(self).max_steps ==> r is Fail && r->Fail_0 is Internal && final(self).fsm.state()
                == AgentState::Error && final(self).fsm.context.messages == old(self).fsm.context.messages,
            old(self).fsm.state() == AgentState::AwaitingLlmResponse && old(self).steps < old(self).max_steps ==> final(self).steps == old(self).steps + 1 && {
                let before = old(self).fsm.context.messages@;
                let after = final(self).fsm.context.messages@;
                &&& response.choices@.len() == 0 ==> r is Fail && r->Fail_0 is Llm && final(self).fsm.state() == AgentState::Error && after == before
                &&& response.choices@.len() > 0 ==> after.len() == before.len() + 1
                    && after.drop_last() == before && is_assistant_record(
                    after.last(),
                    response.choices@[0].message,
                )
                &&& requests_tools(response) ==> {
                    let calls = response.choices@[0].message.tool_calls.unwrap()@;
                    let pending = final(self).fsm.context.pending_tool_calls@;
                    &&& final(self).fsm.state() == AgentState::ExecutingTools
                    &&& r is ExecuteTools
                    &&& r->ExecuteTools_0@.len() == calls.len()
                    &&& pending.len() == calls.len()
                    &&& forall|i: int|
                        0 <= i < calls.len() ==> is_request_for(
                            #[trigger] pending[i],
                            calls[i].function.name@,
                            calls[i].function.arguments@,
                        ) && r->ExecuteTools_0@[i].name == pending[i].name
                            && r->ExecuteTools_0@[i].arguments@ == pending[i].arguments@
                    &&& final(self).fsm.context.tool_call_results@.len() == 0
                }
                &&& response.choices@.len() > 0 && !requests_tools(response) ==> {
                    let content = response.choices@[0].message.content;
                    &&& final(self).fsm.state() == AgentState::Done
                    &&& final(self).fsm.context.final_content == Some(content)
                    &&& content@.len() > 0 ==> r == TurnAction::Finish(content)
                    &&& content@.len() == 0 ==> r is Fail && r->Fail_0 is Internal
                }
            },
    {
        let tools_requested = response.choices.len() > 0 && match &response.choices[0].message.tool_calls {
            Some(c) => c.len() > 0,
            None => false,
        };
        if self.fsm.state != AgentState::AwaitingLlmResponse {
            let event = if response.choices.len() == 0 {
                AgentEvent::ErrorOccurred
            } else if tools_requested {
                AgentEvent::LlmRequestedTools
            } else {
                AgentEvent::LlmRespondedWithContent
            };
            return self.refuse(event);
        }
        if let Some(a) = self.count_step() {
            return a;
        }
        if response.choices.len() == 0 {
            self.fsm.context.llm_response = Some(response);
            return self.fail(
                AgentEvent::ErrorOccurred,
                Error::Llm(String::from_str("LLM response has no choices")),
            );
        }
        let first = &response.choices[0].message;
        let content = first.content.clone();
        let calls: Option<Vec<ToolCall>> = match &first.tool_calls {
            Some(c) => Some(copy_calls(c)),
            None => None,
        };
        proof {
            reveal_strlit("assistant");
        }
        if tools_requested {
            let calls = match calls {
                Some(c) => c,
                None => Vec::new(),
            };
            let mut pending: Vec<McpToolCallRequest> = Vec::new();
            let mut ids: Vec<String> = Vec::new();
            let mut i: usize = 0;
            while i < calls.len()
                invariant
                    0 <= i <= calls@.len(),
                    pending@.len() == i,
                    forall|k: int|
                        0 <= k < i ==> is_request_for(
                            #[trigger] pending@[k],
                            calls@[k].function.name@,
                            calls@[k].function.arguments@,
                        ),
                    string_views(ids@) == calls@.map_values(|c: ToolCall| c.id@).subrange(
                        0,
                        i as int,
                    ),
                decreases calls@.len() - i,
            {
                let ghost prev = ids@;
                pending.push(
                    McpToolCallRequest {
                        name: calls[i].function.name.clone(),
                        arguments: tool_arguments(calls[i].function.arguments.as_str()),
                    },
                );
                ids.push(calls[i].id.clone());
                proof {
                    assert(string_views(ids@) =~= string_views(prev).push(calls@[i as int].id@));
                    assert(string_views(ids@) =~= calls@.map_values(|c: ToolCall| c.id@).subrange(
                        0,
                        i as int + 1,
                    ));
                }
                i = i + 1;
            }
            proof {
                assert(calls@.map_values(|c: ToolCall| c.id@).subrange(0, i as int)
                    =~= calls@.map_values(|c: ToolCall| c.id@));
            }
            let record = ChatMessage {
                role: String::from_str("assistant"),
                content,
                tool_calls: Some(calls),
                tool_call_id: None,
                name: None,
            };
            self.fsm.context.messages.push(record);
            self.fsm.context.pending_tool_calls = pending;
            self.fsm.context.tool_call_id_mapping = ids;
            self.fsm.context.tool_call_results = Vec::new();
            self.fsm.context.llm_response = Some(response);
            let _ = self.fsm.transition(AgentEvent::LlmRequestedTools);
            let out = self.fsm.prepare_tool_execution();
            TurnAction::ExecuteTools(out)
        } else {
            let record = ChatMessage {
                role: String::from_str("assistant"),
                content: content.clone(),
                tool_calls: calls,
                tool_call_id: None,
                name: None,
            };
            self.fsm.context.messages.push(record);
            self.fsm.context.final_content = Some(content.clone());
            self.fsm.context.llm_response = Some(response);
            let _ = self.fsm.transition(AgentEvent::LlmRespondedWithContent);
            if content.as_str().is_empty() {
                let err = Error::Internal(
                    String::from_str("LLM returned neither content nor tool calls"),
                );
                self.fsm.context.last_error = Some(err.message());
                TurnAction::Fail(err)
            } else {
                TurnAction::Finish(content)
            }
        }
    }

    /// Handles a failed language-model call: the request ends with `error`.
    pub fn on_llm_failure(&mut self, error: Error) -> (r: TurnAction)
        requires
            old(self).wf(),
        ensures
            final(self).wf(),
            budget_step(*old(self), r, *final(self)),
            final(self).max_steps == old(self).max_steps,
            final(self).fsm.context.available_tools == old(self).fsm.context.available_tools,
            old(self).fsm.state() != AgentState::AwaitingLlmResponse ==> r is Fail
                && is_invalid_transition(r->Fail_0, old(self).fsm.state(), AgentEvent::ErrorOccurred)
                && *final(self) == *old(self),
            old(self).fsm.state() == AgentState::AwaitingLlmResponse ==> r is Fail && final(self).fsm.state() == AgentState::Error && final(self).fsm.context.messages == old(self).fsm.context.messages,
            old(self).fsm.state() == AgentState::AwaitingLlmResponse && old(self).steps < old(self).max_steps ==> r == TurnAction::Fail(error),
    {
        if self.fsm.state != AgentState::AwaitingLlmResponse {
            return self.refuse(AgentEvent::ErrorOccurred);
        }
        if let Some(a) = self.count_step() {
            return a;
        }
        self.fail(AgentEvent::ErrorOccurred, error)
    }

    /// Handles the results of the tool calls handed out, given in the order
    /// of the calls: each becomes a tool message that carries, by position,
    /// the id of the call it answers; then the next turn begins, within the
    /// budget.
    pub fn on_tool_results(&mut self, results: Vec<McpToolCallResponse>) -> (r: TurnAction)
        requires
            old(self).wf(),
        ensures
            final(self).wf(),
            budget_step(*old(self), r, *final(self)),
            final(self).max_steps == old(self).max_steps,
            final(self).fsm.context.available_tools == old(self).fsm.context.available_tools,
            old(self).fsm.state() != AgentState::ExecutingTools ==> r is Fail && is_invalid_transition(
                r->Fail_0,
                old(self).fsm.state(),
                AgentEvent::ToolsExecutionCompleted,
            ) && *final(self) == *old(self),
            old(self).fsm.state() == AgentState::ExecutingTools && old(self).steps >= old(self).max_steps ==> r is Fail && r->Fail_0 is Internal && final(self).fsm.state()
                == AgentState::Error && final(self).fsm.context.messages == old(self).fsm.context.messages,
            old(self).fsm.state() == AgentState::ExecutingTools && old(self).steps < old(self).max_steps ==> final(self).steps == old(self).steps + 1 && {
                let before = old(self).fsm.context.messages@;
                let after = final(self).fsm.context.messages@;
                let ids = call_ids(before.last());
                &&& results@.len() != old(self).fsm.context.pending_tool_calls@.len() ==> r is Fail
                    && r->Fail_0 is Internal && final(self).fsm.state() == AgentState::Error
                    && after == before
                &&& results@.len() == old(self).fsm.context.pending_tool_calls@.len() ==> {
                    &&& before.last().role@ == "assistant"@
                    &&& ids.len() == results@.len()
                    &&& after.len() == before.len() + results@.len()
                    &&& after.subrange(0, before.len() as int) == before
                    &&& forall|i: int|
                        0 <= i < results@.len() ==> is_tool_reply(
                            #[trigger] after[before.len() + i],
                            result_text(results@[i]),
                            ids[i],
                        )
                    &&& final(self).fsm.context.pending_tool_calls@.len() == 0
                    &&& final(self).fsm.context.tool_call_id_mapping@.len() == 0
                    &&& final(self).fsm.context.tool_call_results@.len() == 0
                    &&& old(self).fsm.context.current_turn >= old(self).fsm.context.max_turns
                        ==> r is Fail && is_max_turns_error(
                        r->Fail_0,
                        old(self).fsm.context.max_turns,
                    ) && final(self).fsm.state() == AgentState::Error
                    &&& old(self).fsm.context.current_turn < old(self).fsm.context.max_turns
                        ==> r is CallLlm && final(self).fsm.state()
                        == AgentState::AwaitingLlmResponse
                }
            },
    {
        if self.fsm.state != AgentState::ExecutingTools {
            return self.refuse(AgentEvent::ToolsExecutionCompleted);
        }
        if let Some(a) = self.count_step() {
            return a;
        }
        if results.len() != self.fsm.context.pending_tool_calls.len() {
            return self.fail(
                AgentEvent::ToolsExecutionFailed,
                Error::Internal(
                    String::from_str("tool results do not match the pending tool calls"),
                ),
            );
        }
        let ghost before = self.fsm.context.messages@;
        let ghost ids = call_ids(before.last());
        let ghost turn = self.fsm.context.current_turn;
        let ghost max_turns = self.fsm.context.max_turns;
        let ghost steps = self.steps;
        let ghost max_steps = self.max_steps;
        let ghost tools = self.fsm.context.available_tools;
        proof {
            reveal_strlit("tool");
        }
        let mut i: usize = 0;
        while i < results.len()
            invariant
                0 <= i <= results@.len(),
                results@.len() == self.fsm.context.tool_call_id_mapping@.len(),
                ids == string_views(self.fsm.context.tool_call_id_mapping@),
                self.fsm.state() == AgentState::ExecutingTools,
                self.fsm.context.current_turn == turn,
                self.fsm.context.max_turns == max_turns,
                turn <= max_turns,
                self.steps == steps,
                steps <= 2 * turn,
                self.max_steps == max_steps,
                self.fsm.context.available_tools == tools,
                self.fsm.context.messages@.len() == before.len() + i,
                self.fsm.context.messages@.subrange(0, before.len() as int) == before,
                forall|k: int|
                    0 <= k < i ==> is_tool_reply(
                        #[trigger] self.fsm.context.messages@[before.len() + k],
                        result_text(results@[k]),
                        ids[k],
                    ),
            decreases results@.len() - i,
        {
            let ghost prev = self.fsm.context.messages@;
            let text = results[i].text();
            let id = self.fsm.context.tool_call_id_mapping[i].clone();
            assert(id@ == ids[i as int]);
            self.fsm.context.messages.push(
                ChatMessage {
                    role: String::from_str("tool"),
                    content: text,
                    tool_calls: None,
                    tool_call_id: Some(id),
                    name: None,
                },
            );
            proof {
                assert(self.fsm.context.messages@.subrange(0, before.len() as int)
                    =~= prev.subrange(0, before.len() as int));
                assert forall|k: int| 0 <= k < i + 1 implies is_tool_reply(
                    #[trigger] self.fsm.context.messages@[before.len() + k],
                    result_text(results@[k]),
                    ids[k],
                ) by {
                    if k < i {
                        assert(self.fsm.context.messages@[before.len() + k] == prev[before.len()
                            + k]);
                    }
                }
            }
            i = i + 1;
        }
        self.fsm.context.clear_tool_calls();
        let _ = self.fsm.transition(AgentEvent::ToolsExecutionCompleted);
        self.begin_turn()
    }
}

} // verus!
