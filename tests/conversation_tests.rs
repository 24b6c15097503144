use jarvis_rust::agent::executor::{seed_transcript, step_ceiling, Conversation, TurnAction};
use jarvis_rust::agent::fsm::AgentState;
use jarvis_rust::agent::router::{Dispatch, ToolRouter};
use jarvis_rust::history::Message;
use jarvis_rust::llm::{ChatCompletionResponse, ChatMessage, Choice, FunctionCall, ToolCall};
use jarvis_rust::mcp::{McpContent, McpTool, McpToolCallResponse};
use jarvis_rust::Error;

fn answer(content: &str) -> ChatCompletionResponse {
    ChatCompletionResponse {
        id: "chatcmpl-123".to_string(),
        model: "gpt-4".to_string(),
        choices: vec![Choice {
            index: 0,
            message: ChatMessage {
                role: "assistant".to_string(),
                content: content.to_string(),
                tool_calls: None,
                tool_call_id: None,
                name: None,
            },
            finish_reason: Some("stop".to_string()),
        }],
        usage: None,
    }
}

fn call(id: &str, name: &str, arguments: &str) -> ToolCall {
    ToolCall {
        id: id.to_string(),
        function: FunctionCall {
            name: name.to_string(),
            arguments: arguments.to_string(),
        },
    }
}

fn tool_request(calls: Vec<ToolCall>) -> ChatCompletionResponse {
    ChatCompletionResponse {
        id: "chatcmpl-123".to_string(),
        model: "gpt-4".to_string(),
        choices: vec![Choice {
            index: 0,
            message: ChatMessage {
                role: "assistant".to_string(),
                content: String::new(),
                tool_calls: Some(calls),
                tool_call_id: None,
                name: None,
            },
            finish_reason: Some("tool_calls".to_string()),
        }],
        usage: None,
    }
}

fn text_result(text: &str) -> McpToolCallResponse {
    McpToolCallResponse {
        content: vec![McpContent::Text { text: text.to_string() }],
        is_error: false,
    }
}

fn conversation(input: &str, max_turns: usize) -> Conversation {
    let messages = seed_transcript(String::new(), vec![], input);
    Conversation::with_budget(messages, vec![], max_turns)
}

fn roles(c: &Conversation) -> Vec<String> {
    c.fsm.context.messages.iter().map(|m| m.role.clone()).collect()
}

#[test]
fn scenario_plain_answer() {
    let mut history: Vec<Message> = Vec::new();
    let session = "s1".to_string();
    history.push(Message::user(session.clone(), "Hi".to_string()));
    let mut c = conversation("Hi", 5);
    let mut llm_calls = 0;
    assert!(matches!(c.start(), TurnAction::CallLlm));
    llm_calls += 1;
    match c.on_llm_response(answer("Hello!")) {
        TurnAction::Finish(content) => {
            assert_eq!(content, "Hello!");
            history.push(Message::assistant(session.clone(), content));
        }
        other => panic!("expected an answer, got {:?}", other),
    }
    assert_eq!(llm_calls, 1);
    assert_eq!(history.len(), 2);
    assert_eq!(history[0].role, "user");
    assert_eq!(history[1].role, "assistant");
    assert_eq!(history[1].content, "Hello!");
    assert_eq!(*c.fsm.current_state(), AgentState::Done);
    assert_eq!(c.fsm.context.final_content, Some("Hello!".to_string()));
    assert_eq!(roles(&c), vec!["user", "assistant"]);
}

#[test]
fn scenario_one_tool_call() {
    let mut router = ToolRouter::new();
    router.register_connection(
        "weather".to_string(),
        vec![McpTool {
            name: "get_weather".to_string(),
            description: "Weather".to_string(),
            input_schema: serde_json::Value::Null,
        }],
        vec![],
    );
    let mut c = conversation("Weather in London?", 5);
    let mut llm_calls = 0;
    assert!(matches!(c.start(), TurnAction::CallLlm));
    llm_calls += 1;
    let requests = match c.on_llm_response(tool_request(vec![call(
        "call_123",
        "get_weather",
        r#"{"location":"London"}"#,
    )])) {
        TurnAction::ExecuteTools(r) => r,
        other => panic!("expected tool calls, got {:?}", other),
    };
    assert_eq!(requests.len(), 1);
    assert_eq!(requests[0].name, "get_weather");
    assert_eq!(
        requests[0].arguments.get("location"),
        Some(&serde_json::Value::String("London".to_string()))
    );
    let results: Vec<McpToolCallResponse> = requests
        .iter()
        .map(|r| match router.dispatch(&r.name) {
            Dispatch::Call { connection } => {
                assert_eq!(connection, "weather");
                text_result("Sunny, 22°C")
            }
            Dispatch::Reply(reply) => reply,
        })
        .collect();
    assert!(matches!(c.on_tool_results(results), TurnAction::CallLlm));
    llm_calls += 1;
    match c.on_llm_response(answer("It is sunny in London, 22°C.")) {
        TurnAction::Finish(content) => assert_eq!(content, "It is sunny in London, 22°C."),
        other => panic!("expected an answer, got {:?}", other),
    }
    assert_eq!(llm_calls, 2);
    assert_eq!(c.fsm.context.current_turn, 2);
    assert_eq!(roles(&c), vec!["user", "assistant", "tool", "assistant"]);
    let m = &c.fsm.context.messages;
    assert_eq!(m[1].tool_calls.as_ref().unwrap()[0].id, "call_123");
    assert_eq!(m[2].content, "Sunny, 22°C");
    assert_eq!(m[2].tool_call_id, Some("call_123".to_string()));
    assert_eq!(m[3].content, "It is sunny in London, 22°C.");
}

#[test]
fn scenario_unknown_tool_keeps_the_turn_going() {
    let router = ToolRouter::new();
    let mut c = conversation("Do it", 5);
    assert!(matches!(c.start(), TurnAction::CallLlm));
    let requests = match c.on_llm_response(tool_request(vec![call("c1", "ghost_tool", "{}")])) {
        TurnAction::ExecuteTools(r) => r,
        other => panic!("expected tool calls, got {:?}", other),
    };
    let reply = match router.dispatch(&requests[0].name) {
        Dispatch::Reply(r) => r,
        Dispatch::Call { .. } => panic!("an unknown tool has no connection"),
    };
    assert!(reply.is_error);
    let text = reply.text();
    assert!(text.contains("no client mapping"));
    assert!(text.contains("ghost_tool"));
    assert!(matches!(c.on_tool_results(vec![reply]), TurnAction::CallLlm));
    assert_eq!(c.fsm.context.messages[2].content, text);
    assert_eq!(c.fsm.context.messages[2].tool_call_id, Some("c1".to_string()));
    match c.on_llm_response(answer("Sorry, I cannot do that.")) {
        TurnAction::Finish(content) => assert_eq!(content, "Sorry, I cannot do that."),
        other => panic!("expected an answer, got {:?}", other),
    }
}

#[test]
fn scenario_turn_budget_exceeded() {
    let mut history: Vec<Message> = vec![Message::user("s".to_string(), "Start loop".to_string())];
    let mut c = conversation("Start loop", 5);
    let mut llm_calls = 0;
    let mut action = c.start();
    let mut responses_left = 6;
    let outcome = loop {
        match action {
            TurnAction::CallLlm => {
                llm_calls += 1;
                assert!(responses_left > 0);
                responses_left -= 1;
                action = c.on_llm_response(tool_request(vec![call("loop", "looping_tool", "{}")]));
            }
            TurnAction::ExecuteTools(requests) => {
                let results = requests.iter().map(|_| text_result("looping tool result")).collect();
                action = c.on_tool_results(results);
            }
            TurnAction::Finish(content) => {
                history.push(Message::assistant("s".to_string(), content.clone()));
                break Ok(content);
            }
            TurnAction::Fail(e) => break Err(e),
        }
    };
    assert_eq!(llm_calls, 5);
    match outcome {
        Err(Error::MaxTurnsExceeded { max_turns }) => assert_eq!(max_turns, 5),
        other => panic!("expected the turn budget error, got {:?}", other),
    }
    assert_eq!(history.len(), 1);
    assert_eq!(*c.fsm.current_state(), AgentState::Error);
    assert!(c.fsm.is_terminal());
    assert!(matches!(c.start(), TurnAction::Fail(Error::InvalidTransition { .. })));
}

#[test]
fn results_keep_the_ids_of_their_calls_by_position() {
    let mut c = conversation("two things", 5);
    c.start();
    let requests = match c.on_llm_response(tool_request(vec![
        call("id_a", "tool_a", "{}"),
        call("id_b", "tool_b", "not json"),
    ])) {
        TurnAction::ExecuteTools(r) => r,
        other => panic!("expected tool calls, got {:?}", other),
    };
    assert_eq!(requests[0].name, "tool_a");
    assert_eq!(requests[1].name, "tool_b");
    assert!(requests[1].arguments.is_empty());
    assert_eq!(c.fsm.context.tool_call_id_mapping, vec!["id_a", "id_b"]);
    c.on_tool_results(vec![text_result("result a"), text_result("result b")]);
    let m = &c.fsm.context.messages;
    assert_eq!(m.len(), 4);
    assert_eq!(m[2].tool_call_id, Some("id_a".to_string()));
    assert_eq!(m[2].content, "result a");
    assert_eq!(m[3].tool_call_id, Some("id_b".to_string()));
    assert_eq!(m[3].content, "result b");
    assert!(c.fsm.context.pending_tool_calls.is_empty());
    assert!(c.fsm.context.tool_call_id_mapping.is_empty());
}

#[test]
fn non_text_result_becomes_an_empty_tool_message() {
    let mut c = conversation("draw", 5);
    c.start();
    c.on_llm_response(tool_request(vec![call("img", "draw", "{}")]));
    let image = McpToolCallResponse {
        content: vec![McpContent::Image { data: "AAAA".to_string(), mime_type: "image/png".to_string() }],
        is_error: false,
    };
    assert!(matches!(c.on_tool_results(vec![image]), TurnAction::CallLlm));
    assert_eq!(c.fsm.context.messages[2].content, "");
    assert_eq!(c.fsm.context.messages[2].tool_call_id, Some("img".to_string()));
}

#[test]
fn mismatched_result_count_is_an_internal_error() {
    let mut c = conversation("x", 5);
    c.start();
    c.on_llm_response(tool_request(vec![call("a", "t", "{}")]));
    match c.on_tool_results(vec![]) {
        TurnAction::Fail(Error::Internal(_)) => {}
        other => panic!("expected an internal error, got {:?}", other),
    }
    assert_eq!(*c.fsm.current_state(), AgentState::Error);
}

#[test]
fn empty_answer_is_an_internal_error() {
    let mut c = conversation("x", 5);
    c.start();
    match c.on_llm_response(answer("")) {
        TurnAction::Fail(Error::Internal(_)) => {}
        other => panic!("expected an internal error, got {:?}", other),
    }
    assert!(c.fsm.get_last_error().is_some());
}

#[test]
fn response_without_choices_fails_the_turn() {
    let mut c = conversation("x", 5);
    c.start();
    let mut r = answer("unused");
    r.choices.clear();
    match c.on_llm_response(r) {
        TurnAction::Fail(e) => assert_eq!(e.message(), "LLM error: LLM response has no choices"),
        other => panic!("expected a failure, got {:?}", other),
    }
    assert_eq!(*c.fsm.current_state(), AgentState::Error);
}

#[test]
fn llm_failure_ends_the_turn_with_that_error() {
    let mut c = conversation("x", 5);
    c.start();
    match c.on_llm_failure(Error::llm("timeout")) {
        TurnAction::Fail(e) => assert_eq!(e.message(), "LLM error: timeout"),
        other => panic!("expected a failure, got {:?}", other),
    }
    assert_eq!(c.fsm.get_last_error(), Some("LLM error: timeout"));
}

#[test]
fn zero_turn_budget_never_calls_the_model() {
    let mut c = conversation("x", 0);
    match c.start() {
        TurnAction::Fail(e) => assert_eq!(e.message(), "Max interaction turns exceeded: 0"),
        other => panic!("expected the budget error, got {:?}", other),
    }
}

#[test]
fn step_ceiling_is_an_internal_error() {
    let messages = seed_transcript(String::new(), vec![], "x");
    let mut c = Conversation::new(messages, vec![], 5, 0);
    assert!(matches!(c.start(), TurnAction::CallLlm));
    match c.on_llm_response(answer("late")) {
        TurnAction::Fail(Error::Internal(m)) => assert_eq!(m, "FSM loop iteration limit exceeded"),
        other => panic!("expected an internal error, got {:?}", other),
    }
}

#[test]
fn events_out_of_order_are_refused_without_change() {
    let mut c = conversation("x", 5);
    match c.on_tool_results(vec![]) {
        TurnAction::Fail(Error::InvalidTransition { current, requested }) => {
            assert_eq!(current, "ReadyToCallLlm");
            assert_eq!(requested, "ToolsExecutionCompleted");
        }
        other => panic!("expected a refusal, got {:?}", other),
    }
    match c.on_llm_response(answer("early")) {
        TurnAction::Fail(Error::InvalidTransition { requested, .. }) => {
            assert_eq!(requested, "LlmRespondedWithContent")
        }
        other => panic!("expected a refusal, got {:?}", other),
    }
    assert_eq!(*c.fsm.current_state(), AgentState::ReadyToCallLlm);
    assert_eq!(c.fsm.context.messages.len(), 1);
    assert_eq!(c.steps, 0);
}

#[test]
fn seed_transcript_orders_system_history_and_input() {
    let history = vec![
        Message::user("s".to_string(), "earlier question".to_string()),
        Message::assistant("s".to_string(), "earlier answer".to_string()),
    ];
    let t = seed_transcript("Be helpful.".to_string(), history, "now");
    let roles: Vec<&str> = t.iter().map(|m| m.role.as_str()).collect();
    assert_eq!(roles, vec!["system", "user", "assistant", "user"]);
    assert_eq!(t[0].content, "Be helpful.");
    assert_eq!(t[1].content, "earlier question");
    assert_eq!(t[2].content, "earlier answer");
    assert_eq!(t[3].content, "now");
    assert!(t.iter().all(|m| m.tool_calls.is_none() && m.tool_call_id.is_none()));

    let bare = seed_transcript(String::new(), vec![], "hello");
    assert_eq!(bare.len(), 1);
    assert_eq!(bare[0].role, "user");
}

#[test]
fn history_message_helpers() {
    let m = Message::tool("s".to_string(), "out".to_string());
    assert_eq!(m.role, "tool");
    assert!(m.id.is_none());
    assert!(m.created_at > 0);
    assert_eq!(Message::system("s".to_string(), "p".to_string()).role, "system");
}

#[test]
fn raw_response_is_kept() {
    let mut c = conversation("x", 5);
    c.start();
    c.on_llm_response(answer("kept"));
    let stored = c.fsm.context.llm_response.as_ref().unwrap();
    assert_eq!(stored.id, "chatcmpl-123");
    assert_eq!(stored.choices[0].message.content, "kept");
}

#[test]
fn step_ceiling_is_twice_the_budget() {
    assert_eq!(step_ceiling(5), 10);
    assert_eq!(step_ceiling(0), 0);
    assert_eq!(step_ceiling(usize::MAX), usize::MAX);
    let c = conversation("x", 7);
    assert_eq!(c.max_steps, 14);
}

#[test]
fn budget_of_one_round_ends_with_the_budget_error_not_the_ceiling() {
    let mut c = conversation("x", 1);
    assert!(matches!(c.start(), TurnAction::CallLlm));
    assert!(matches!(
        c.on_llm_response(tool_request(vec![call("a", "t", "{}")])),
        TurnAction::ExecuteTools(_)
    ));
    match c.on_tool_results(vec![text_result("r")]) {
        TurnAction::Fail(Error::MaxTurnsExceeded { max_turns }) => assert_eq!(max_turns, 1),
        other => panic!("expected the budget error, got {:?}", other),
    }
}

#[test]
fn catalog_stays_the_same_across_turns() {
    let tools = vec![jarvis_rust::llm::Tool {
        tool_type: "function".to_string(),
        function: jarvis_rust::llm::Function {
            name: "t".to_string(),
            description: "d".to_string(),
            parameters: serde_json::Value::Null,
        },
    }];
    let mut c = Conversation::with_budget(seed_transcript(String::new(), vec![], "x"), tools, 3);
    c.start();
    c.on_llm_response(tool_request(vec![call("a", "t", "{}")]));
    c.on_tool_results(vec![text_result("r")]);
    assert_eq!(c.fsm.context.available_tools.len(), 1);
    assert_eq!(c.fsm.context.available_tools[0].function.name, "t");
}
