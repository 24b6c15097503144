use jarvis_rust::agent::discovery::{
    advertises_prompts, handshake_request, prompt_fragment, prompts_to_fetch,
};
use jarvis_rust::agent::router::{Dispatch, ToolRouter, DEFAULT_SYSTEM_PROMPT};
use jarvis_rust::config::LlmConfig;
use jarvis_rust::json::tool_arguments;
use jarvis_rust::llm::{Function, Tool};
use jarvis_rust::mcp::{
    McpContent, McpGetPromptResponse, McpInitializeResponse, McpPrompt, McpPromptArgument,
    McpPromptMessage, McpPromptsCapability, McpServerCapabilities, McpTool, McpToolCallResponse,
};

fn schema() -> serde_json::Value {
    serde_json::from_str(r#"{"type":"object","properties":{"input":{"type":"string"}}}"#).unwrap()
}

fn mcp_tool(name: &str, description: &str) -> McpTool {
    McpTool {
        name: name.to_string(),
        description: description.to_string(),
        input_schema: schema(),
    }
}

fn llm_tool(name: &str, description: &str) -> Tool {
    Tool {
        tool_type: "function".to_string(),
        function: Function {
            name: name.to_string(),
            description: description.to_string(),
            parameters: serde_json::Value::Object(serde_json::Map::new()),
        },
    }
}

fn reply_text(d: &Dispatch) -> (String, bool) {
    match d {
        Dispatch::Reply(r) => match &r.content[..] {
            [McpContent::Text { text }] => (text.clone(), r.is_error),
            _ => panic!("expected one text item, got {:?}", r),
        },
        Dispatch::Call { connection } => panic!("expected a reply, got a call to {}", connection),
    }
}

#[test]
fn test_tool_to_client_mapping() {
    let mut router = ToolRouter::new();
    router.add_route("weather_tool".to_string(), "client1".to_string());
    router.add_route("news_tool".to_string(), "client1".to_string());
    router.add_route("math_tool".to_string(), "client2".to_string());
    router.add_route("translate_tool".to_string(), "client2".to_string());
    router.add_tool(llm_tool("weather_tool", "Get weather information"));
    router.add_tool(llm_tool("news_tool", "Get news articles"));
    router.add_tool(llm_tool("math_tool", "Perform mathematical calculations"));
    router.add_tool(llm_tool("translate_tool", "Translate text"));
    router.add_connection("client1".to_string());
    router.add_connection("client2".to_string());

    assert_eq!(router.resolve("weather_tool"), Some("client1".to_string()));
    assert_eq!(router.resolve("news_tool"), Some("client1".to_string()));
    assert_eq!(router.resolve("math_tool"), Some("client2".to_string()));
    assert_eq!(router.resolve("translate_tool"), Some("client2".to_string()));

    let tools = router.available_tools();
    assert_eq!(tools.len(), 4);
    let tool_names: Vec<String> = tools.iter().map(|t| t.function.name.clone()).collect();
    assert!(tool_names.contains(&"weather_tool".to_string()));
    assert!(tool_names.contains(&"news_tool".to_string()));
    assert!(tool_names.contains(&"math_tool".to_string()));
    assert!(tool_names.contains(&"translate_tool".to_string()));

    assert!(router.is_live(&"client1".to_string()));
    assert!(router.is_live(&"client2".to_string()));
}

#[test]
fn test_tool_name_conflict_handling() {
    let mut router = ToolRouter::new();
    router.register_connection(
        "client1".to_string(),
        vec![
            mcp_tool("duplicate_tool", "Tool from client1"),
            mcp_tool("unique_tool1", "Unique tool from client1"),
        ],
        vec![],
    );
    router.register_connection(
        "client2".to_string(),
        vec![
            mcp_tool("duplicate_tool", "Tool from client2"),
            mcp_tool("unique_tool2", "Unique tool from client2"),
        ],
        vec![],
    );

    assert_eq!(router.resolve("duplicate_tool"), Some("client2".to_string()));
    assert_eq!(router.resolve("unique_tool1"), Some("client1".to_string()));
    assert_eq!(router.resolve("unique_tool2"), Some("client2".to_string()));
    assert_eq!(router.routes().len(), 3);

    let tools = router.available_tools();
    assert_eq!(tools.len(), 3);
    let duplicate: Vec<&Tool> = tools
        .iter()
        .filter(|t| t.function.name == "duplicate_tool")
        .collect();
    assert_eq!(duplicate.len(), 1);
    assert_eq!(duplicate[0].function.description, "Tool from client2");
    assert_eq!(duplicate[0].tool_type, "function");
    assert_eq!(duplicate[0].function.parameters, schema());
}

#[test]
fn test_tool_execution_missing_client() {
    let mut router = ToolRouter::new();
    router.add_route("test_tool".to_string(), "missing_client".to_string());
    router.add_tool(llm_tool("test_tool", "Test tool"));
    router.add_connection("existing_client".to_string());

    let (text, is_error) = reply_text(&router.dispatch("test_tool"));
    assert!(is_error);
    assert!(text.contains("Client 'missing_client' for tool 'test_tool' is no longer available"));
}

#[test]
fn unrouted_tool_reply_lists_available_tools() {
    let mut router = ToolRouter::new();
    router.register_connection(
        "client1".to_string(),
        vec![mcp_tool("existing_tool", "An existing tool"), mcp_tool("other_tool", "Another")],
        vec![],
    );

    let (text, is_error) = reply_text(&router.dispatch("nonexistent_tool"));
    assert!(is_error);
    assert_eq!(
        text,
        "Error: no client mapping for tool 'nonexistent_tool'; available: existing_tool, other_tool"
    );
}

#[test]
fn unrouted_tool_with_empty_table() {
    let router = ToolRouter::new();
    let (text, is_error) = reply_text(&router.dispatch("ghost_tool"));
    assert!(is_error);
    assert_eq!(text, "Error: no client mapping for tool 'ghost_tool'; available: ");
}

#[test]
fn routed_tool_on_live_connection_is_called() {
    let mut router = ToolRouter::new();
    router.register_connection("weather".to_string(), vec![mcp_tool("get_weather", "w")], vec![]);
    match router.dispatch("get_weather") {
        Dispatch::Call { connection } => assert_eq!(connection, "weather"),
        Dispatch::Reply(r) => panic!("expected a call, got {:?}", r),
    }
}

#[test]
fn resolving_twice_gives_the_same_connection() {
    let mut router = ToolRouter::new();
    router.register_connection("a".to_string(), vec![mcp_tool("t", "d")], vec![]);
    let first = router.resolve("t");
    let second = router.resolve("t");
    assert_eq!(first, Some("a".to_string()));
    assert_eq!(first, second);
    assert_eq!(router.resolve("u"), None);
    assert_eq!(router.resolve("u"), router.resolve("u"));
}

#[test]
fn last_registration_wins_with_one_route() {
    let mut router = ToolRouter::new();
    router.register_connection("first".to_string(), vec![mcp_tool("shared", "1")], vec![]);
    router.register_connection("second".to_string(), vec![mcp_tool("shared", "2")], vec![]);
    let shared: Vec<_> = router.routes().iter().filter(|r| r.tool == "shared").collect();
    assert_eq!(shared.len(), 1);
    assert_eq!(shared[0].connection, "second");
    assert_eq!(router.resolve("shared"), Some("second".to_string()));
}

#[test]
fn removed_connection_degrades_to_an_error_reply() {
    let mut router = ToolRouter::new();
    router.register_connection("weather".to_string(), vec![mcp_tool("get_weather", "w")], vec![]);
    assert!(router.remove_connection("weather"));
    assert!(!router.remove_connection("weather"));
    assert!(!router.is_live(&"weather".to_string()));
    assert_eq!(router.resolve("get_weather"), Some("weather".to_string()));
    let (text, is_error) = reply_text(&router.dispatch("get_weather"));
    assert!(is_error);
    assert_eq!(
        text,
        "Error: Client 'weather' for tool 'get_weather' is no longer available"
    );
}

#[test]
fn transport_failure_becomes_an_error_result() {
    let r: McpToolCallResponse = ToolRouter::failed_call("MCP error: connection reset");
    assert!(r.is_error);
    assert_eq!(r.text(), "Error: Tool execution failed: MCP error: connection reset");
}

#[test]
fn system_prompt_joins_fragments_in_discovery_order() {
    let mut router = ToolRouter::new();
    assert_eq!(router.system_prompt("Base"), "Base");
    router.register_connection("a".to_string(), vec![], vec!["From a".to_string()]);
    router.register_connection("b".to_string(), vec![], vec!["From b".to_string()]);
    assert_eq!(router.system_prompt("Base"), "Base\n\nFrom a\n\nFrom b");
}

#[test]
fn tool_names_in_registration_order() {
    let mut router = ToolRouter::new();
    router.register_connection("a".to_string(), vec![mcp_tool("x", ""), mcp_tool("y", "")], vec![]);
    router.register_connection("b".to_string(), vec![mcp_tool("x", ""), mcp_tool("z", "")], vec![]);
    assert_eq!(router.tool_names(), vec!["x", "y", "z"]);
}

fn prompt(name: &str, args: usize) -> McpPrompt {
    McpPrompt {
        name: name.to_string(),
        description: String::new(),
        arguments: (0..args)
            .map(|i| McpPromptArgument {
                name: format!("arg{}", i),
                description: String::new(),
                required: true,
            })
            .collect(),
    }
}

#[test]
fn only_argumentless_prompts_are_fetched() {
    let prompts = vec![prompt("sys", 0), prompt("templ", 2), prompt("other", 0)];
    assert_eq!(prompts_to_fetch(&prompts), vec!["sys", "other"]);
    assert!(prompts_to_fetch(&vec![]).is_empty());
}

fn prompt_message(role: &str, content: McpContent) -> McpPromptMessage {
    McpPromptMessage {
        role: role.to_string(),
        content,
    }
}

#[test]
fn fragment_is_the_first_assistant_text() {
    let response = McpGetPromptResponse {
        description: String::new(),
        messages: vec![
            prompt_message("user", McpContent::Text { text: "question".to_string() }),
            prompt_message("assistant", McpContent::Text { text: "Be brief.".to_string() }),
            prompt_message("assistant", McpContent::Text { text: "Later".to_string() }),
        ],
    };
    assert_eq!(prompt_fragment(&response), Some("Be brief.".to_string()));

    let image_first = McpGetPromptResponse {
        description: String::new(),
        messages: vec![
            prompt_message(
                "assistant",
                McpContent::Image { data: "AAAA".to_string(), mime_type: "image/png".to_string() },
            ),
            prompt_message("assistant", McpContent::Text { text: "Later".to_string() }),
        ],
    };
    assert_eq!(prompt_fragment(&image_first), None);

    let no_assistant = McpGetPromptResponse {
        description: String::new(),
        messages: vec![prompt_message("user", McpContent::Text { text: "q".to_string() })],
    };
    assert_eq!(prompt_fragment(&no_assistant), None);
}

#[test]
fn handshake_and_prompt_capability() {
    let request = handshake_request();
    assert!(!request.capabilities.roots.unwrap().list_changed);
    assert!(request.capabilities.sampling.is_none());

    let mut response = McpInitializeResponse {
        capabilities: McpServerCapabilities { tools: None, prompts: None, resources: None },
        protocol_version: "2024-11-05".to_string(),
        server_info: None,
    };
    assert!(!advertises_prompts(&response));
    response.capabilities.prompts = Some(McpPromptsCapability { list_changed: false });
    assert!(advertises_prompts(&response));
}

#[test]
fn prompt_for_takes_the_configured_base_or_the_default() {
    let mut router = ToolRouter::new();
    router.register_connection("a".to_string(), vec![], vec!["Extra".to_string()]);
    assert_eq!(router.prompt_for(&Some("Mine".to_string())), "Mine\n\nExtra");
    assert_eq!(router.prompt_for(&None), format!("{}\n\nExtra", DEFAULT_SYSTEM_PROMPT));
}

#[test]
fn turn_budget_is_configurable() {
    let mut config = LlmConfig {
        provider: "openai".to_string(),
        base_url: String::new(),
        api_key: "k".to_string(),
        model: "m".to_string(),
        system_prompt: None,
        max_turns: None,
    };
    assert_eq!(config.turn_budget(), 5);
    config.max_turns = Some(10);
    assert_eq!(config.turn_budget(), 10);
}

#[test]
fn tool_arguments_reads_a_json_object() {
    let args = tool_arguments(r#"{"location":"London","days":3}"#);
    assert_eq!(args.len(), 2);
    assert_eq!(args.get("location"), Some(&serde_json::Value::String("London".to_string())));
    assert!(tool_arguments("[1, 2]").is_empty());
    assert!(tool_arguments("").is_empty());
}
