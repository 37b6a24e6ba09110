//! The tools of one request by name, and what becomes of a model's calls of them.
use agentic_core::error::ToolError;
use agentic_core::events::normalize_sse_line;
use agentic_core::executors::{GatewayExecutorRegistration, GatewayExecutors, McpConnection};
use agentic_core::items::{FunctionToolCall, MessageStatus, OutputItem};
use agentic_core::json::{Json, JsonObject};
use agentic_core::mcp::{McpDiscoveredHandler, McpHandler};
use agentic_core::ownership::ToolOwnership;
use agentic_core::payload::RequestPayload;
use agentic_core::registry::ToolRegistry;
use agentic_core::search::ToolSearchState;
use agentic_core::tools::{
    CodexNamespaceMember, McpDiscoveredToolParam, McpTool, ResponsesTool, ToolType,
};
use agentic_core::wire::FromJson;

fn json(text: &str) -> Json {
    Json::parse(text).expect("valid JSON")
}

fn items(text: &str) -> Vec<Json> {
    match json(text) {
        Json::Array(items) => items,
        other => panic!("expected a list, got {other:?}"),
    }
}

fn tool(text: &str) -> ResponsesTool {
    ResponsesTool::from_json(&json(text)).expect("a declaration")
}

fn tools_of(text: &str) -> Vec<ResponsesTool> {
    items(text)
        .iter()
        .map(|item| ResponsesTool::from_json(item).expect("a declaration"))
        .collect()
}

fn output_items(text: &str) -> Vec<OutputItem> {
    items(text).iter().map(|item| OutputItem::from_json(item).expect("an item")).collect()
}

fn request(text: &str) -> RequestPayload {
    RequestPayload::from_json(&json(text)).expect("a request")
}

fn response_with(output: Vec<Json>) -> Json {
    let mut response = JsonObject::new();
    response.set("output", Json::Array(output));
    Json::Object(response)
}

fn at<'a>(value: &'a Json, path: &[&str]) -> Option<&'a Json> {
    let mut here = value;
    for key in path {
        here = match here {
            Json::Array(items) => items.get(key.parse::<usize>().ok()?)?,
            other => other.get(key)?,
        };
    }
    Some(here)
}

fn declaration(server_label: &str) -> ResponsesTool {
    tool(&format!(
        r#"{{
            "type": "mcp",
            "server_label": "{server_label}",
            "server_url": "http://127.0.0.1:8000/mcp",
            "require_approval": "never"
        }}"#
    ))
}

fn discovered_handler(
    server_label: &str,
    tool_name: &str,
    internal_name: &str,
) -> McpDiscoveredHandler {
    let param = McpDiscoveredToolParam {
        server_label: server_label.to_owned(),
        tool_name: tool_name.to_owned(),
        internal_name: internal_name.to_owned(),
        tool: McpTool::from_json(&json(&format!(
            r#"{{
                "name": "{tool_name}",
                "description": "Discovered test tool",
                "inputSchema": {{"type": "object"}}
            }}"#
        )))
        .expect("discovered MCP tool"),
    };
    McpDiscoveredHandler { param, handler: McpHandler::discovered_tool_spec_only() }
}

#[test]
fn tool_search_declaration_has_no_registry_entry_or_handler() {
    let mut tools = tools_of(r#"[{
        "type": "tool_search",
        "execution": "client",
        "description": "Find a tool",
        "parameters": {"type": "object"}
    }]"#);
    let mut executors = GatewayExecutors::default();

    let registry = ToolRegistry::build_with_handlers(&mut tools, &mut executors)
        .expect("inert declaration does not require a handler");

    assert!(registry.lookup("tool_search").is_none());
    assert!(registry.entries.is_empty());
}

#[test]
fn synthetic_tool_search_is_client_owned_never_dispatched_and_normalizes_blocking_output() {
    let (request, state) = prepared_search_state();
    let mut tools = private_tools(&state, &request);
    let mut executors = GatewayExecutors::default();
    let mut registry = ToolRegistry::build_with_handlers(&mut tools, &mut executors)
        .expect("synthetic function builds normally");

    registry
        .classify_tool_search(&state)
        .expect("prepared synthetic entry is reclassified exactly once");
    let entry = registry.lookup("tool_search").expect("classified search entry");
    assert_eq!(entry.tool_type, ToolType::ToolSearch);
    assert!(!entry.tool_type.is_gateway_owned());

    let OutputItem::FunctionCall(call) = output_items(r#"[{
        "type": "function_call",
        "id": "fc_search_1",
        "call_id": "call_search_1",
        "name": "tool_search",
        "arguments": "{\"query\":\"weather\"}",
        "status": "completed"
    }]"#).remove(0) else {
        panic!("expected a function call");
    };
    assert!(
        registry.dispatch(&call).is_none(),
        "tool search has no gateway handler"
    );

    let mut response = json(r#"{"output": [{
        "type": "function_call",
        "id": "fc_search_1",
        "call_id": "call_search_1",
        "name": "tool_search",
        "namespace": null,
        "arguments": "{\"query\":\"weather\"}",
        "status": "completed"
    }]}"#);
    registry
        .normalize_blocking_response(&mut response)
        .expect("valid normalized search call converts once");
    assert_eq!(
        at(&response, &["output", "0"]),
        Some(&json(r#"{
            "type": "tool_search_call",
            "id": "tsc_search_1",
            "call_id": "call_search_1",
            "execution": "client",
            "arguments": {"query": "weather"},
            "status": "completed"
        }"#))
    );
}

#[test]
fn raw_blocking_tool_search_normalization_is_strict_atomic_and_state_driven() {
    let (request, state) = prepared_search_state();
    let mut tools = private_tools(&state, &request);
    let mut registry = ToolRegistry::build_with_handlers(&mut tools, &mut GatewayExecutors::default())
        .expect("registry");
    registry.classify_tool_search(&state).expect("classification");

    let mut valid = json(r#"{"output": [{
        "type": "function_call",
        "id": "fc_search",
        "call_id": "call_search",
        "name": "tool_search",
        "namespace": null,
        "arguments": "{\"query\":\"weather\"}",
        "status": "completed"
    }]}"#);
    registry
        .normalize_blocking_response(&mut valid)
        .expect("valid raw call normalizes once");
    assert_eq!(
        at(&valid, &["output", "0"]),
        Some(&json(r#"{
            "type": "tool_search_call",
            "id": "tsc_search",
            "call_id": "call_search",
            "execution": "client",
            "arguments": {"query": "weather"},
            "status": "completed"
        }"#))
    );

    let invalid_items = [
        json(r#"{"type":"custom_tool_call","id":"fc_search","call_id":"call_search","name":"tool_search","arguments":"{}"}"#),
        json(r#"{"type":"function_call","call_id":"call_search","name":"tool_search","arguments":"{}","status":"completed"}"#),
        json(r#"{"type":"function_call","id":" ","call_id":"call_search","name":"tool_search","arguments":"{}","status":"completed"}"#),
        json(r#"{"type":"function_call","id":"fc_search","name":"tool_search","arguments":"{}","status":"completed"}"#),
        json(r#"{"type":"function_call","id":"fc_search","call_id":"","name":"tool_search","arguments":"{}","status":"completed"}"#),
        json(r#"{"type":"function_call","id":"fc_search","call_id":7,"name":"tool_search","arguments":"{}","status":"completed"}"#),
        json(r#"{"type":"function_call","id":"fc_search","call_id":"call_search","name":"tool_search","status":"completed"}"#),
        json(r#"{"type":"function_call","id":"fc_search","call_id":"call_search","name":"tool_search","arguments":null,"status":"completed"}"#),
        json(r#"{"type":"function_call","id":"fc_search","call_id":"call_search","name":"tool_search","arguments":"{","status":"completed"}"#),
        json(r#"{"type":"function_call","id":"fc_search","call_id":"call_search","name":"tool_search","arguments":"[]","status":"completed"}"#),
        json(r#"{"type":"function_call","id":"fc_search","call_id":"call_search","name":"tool_search","arguments":"null","status":"completed"}"#),
        json(r#"{"type":"function_call","id":"fc_search","call_id":"call_search","name":"tool_search","arguments":"{}"}"#),
        json(r#"{"type":"function_call","id":"fc_search","call_id":"call_search","name":"tool_search","arguments":"{}","status":"in_progress"}"#),
        json(r#"{"type":"function_call","id":"fc_search","call_id":"call_search","name":"tool_search","arguments":"{}","status":7}"#),
        json(r#"{"type":"function_call","id":"fc_search","call_id":"call_search","name":"tool_search","namespace":"tools","arguments":"{}","status":"completed"}"#),
        json(r#"{"type":"function_call","id":"fc_search","call_id":"call_search","name":"tool_search","namespace":7,"arguments":"{}","status":"completed"}"#),
    ];
    for item in invalid_items {
        let mut response = response_with(vec![item]);
        assert!(
            matches!(
                registry.normalize_blocking_response(&mut response),
                Err(ToolError::Execution(message)) if message == "upstream returned an invalid tool-search call"
            ),
            "malformed reserved raw call must fail atomically"
        );
    }

    let raw_valid = json(r#"{
        "type":"function_call", "id":"fc_search", "call_id":"call_search", "name":"tool_search",
        "namespace":null, "arguments":"{}", "status":"completed"
    }"#);
    let mut duplicate = response_with(vec![raw_valid.clone(), raw_valid.clone()]);
    assert!(registry.normalize_blocking_response(&mut duplicate).is_err());
    let mut collision = response_with(vec![
        raw_valid,
        json(r#"{"type":"message","id":"tsc_search","role":"assistant","content":[]}"#),
    ]);
    assert!(registry.normalize_blocking_response(&mut collision).is_err());

    let mut ordinary_tools = tools_of(r#"[{
        "type": "function", "name": "tool_search", "parameters": {"type": "object"}
    }]"#);
    let ordinary = ToolRegistry::build_with_handlers(&mut ordinary_tools, &mut GatewayExecutors::default())
        .expect("ordinary registry");
    let mut inactive_response = response_with(vec![invalid_items_for_inactive()]);
    ordinary
        .normalize_blocking_response(&mut inactive_response)
        .expect("inactive ordinary function is never name-only validated as search");
    assert_eq!(at(&inactive_response, &["output", "0", "type"]), Some(&Json::text("function_call")));
}

#[test]
fn declaration_free_replay_enables_state_driven_raw_normalization() {
    let (request, state) = replayed_search_state();
    assert!(state.is_active());
    assert!(state.synthetic_function().is_none());
    let mut tools = private_tools(&state, &request);
    let mut registry = ToolRegistry::build_with_handlers(&mut tools, &mut GatewayExecutors::default())
        .expect("loaded function registry");
    assert!(registry.lookup("tool_search").is_none());
    registry
        .classify_tool_search(&state)
        .expect("enable replay translation");

    let mut valid = json(r#"{"output": [{
        "type": "function_call", "id": "fc_search", "call_id": "call_search",
        "name": "tool_search", "namespace": null, "arguments": "{\"query\":\"news\"}",
        "status": "completed"
    }]}"#);
    registry
        .normalize_blocking_response(&mut valid)
        .expect("active replay translates reserved call");
    assert_eq!(at(&valid, &["output", "0", "type"]), Some(&Json::text("tool_search_call")));

    let mut malformed = json(r#"{"output": [{
        "type": "function_call", "id": "fc_search", "call_id": "call_search",
        "name": "tool_search", "namespace": null, "arguments": "{}", "status": "in_progress"
    }]}"#);
    assert!(matches!(
        registry.normalize_blocking_response(&mut malformed),
        Err(ToolError::Execution(_))
    ));
}

#[test]
fn withheld_namespace_guard_is_exact_not_prefix_based() {
    let request = request(r#"{
        "model": "test",
        "input": "find a tool",
        "tools": [
            {
                "type": "tool_search", "execution": "client", "description": "Find a tool",
                "parameters": {"type": "object"}
            },
            {
                "type": "namespace", "name": "weather", "tools": [{
                    "type": "function", "name": "forecast", "defer_loading": true
                }]
            },
            {
                "type": "function", "name": "agentic_ns__weather__ordinary_prefix_like",
                "parameters": {"type": "object"}
            }
        ],
        "store": false,
        "stream": false
    }"#);
    let state = ToolSearchState::build(&request).expect("prepared namespace state");
    let mut tools = private_tools(&state, &request);
    let mut registry = ToolRegistry::build_with_handlers(&mut tools, &mut GatewayExecutors::default())
        .expect("private registry");
    registry.classify_tool_search(&state).expect("classification");

    let mut ordinary = json(r#"{"output": [{
        "type": "function_call", "id": "fc_ordinary", "call_id": "call_ordinary",
        "name": "agentic_ns__weather__ordinary_prefix_like", "arguments": "{}", "status": "completed"
    }]}"#);
    registry
        .normalize_blocking_response(&mut ordinary)
        .expect("unrelated prefix-like function remains ordinary");
    assert_eq!(at(&ordinary, &["output", "0", "type"]), Some(&Json::text("function_call")));

    let mut withheld = json(r#"{"output": [{
        "type": "function_call", "id": "fc_withheld", "call_id": "call_withheld",
        "name": "agentic_ns__weather__forecast", "arguments": "{}", "status": "completed"
    }]}"#);
    assert!(matches!(
        registry.normalize_blocking_response(&mut withheld),
        Err(ToolError::Execution(_))
    ));
}

fn invalid_items_for_inactive() -> Json {
    json(r#"{
        "type": "function_call",
        "id": "fc_ordinary",
        "call_id": "",
        "name": "tool_search",
        "arguments": "[]"
    }"#)
}

fn private_tools(
    state: &ToolSearchState,
    request: &RequestPayload,
) -> Vec<ResponsesTool> {
    state
        .private_inference_request(request)
        .expect("prepared state materializes a private inference request")
        .tools
        .expect("private tools")
}

fn prepared_search_state() -> (RequestPayload, ToolSearchState) {
    let request = request(r#"{
        "model": "test",
        "input": "find a tool",
        "tools": [{
            "type": "tool_search",
            "execution": "client",
            "description": "Search the client catalog",
            "parameters": {"type": "object"}
        }],
        "store": false,
        "stream": false
    }"#);
    let state = ToolSearchState::build(&request).expect("prepared search state");
    (request, state)
}

fn replayed_search_state() -> (RequestPayload, ToolSearchState) {
    let request = request(r#"{
        "model": "test",
        "input": [
            {
                "type": "tool_search_call", "id": "tsc_1", "call_id": "call_1",
                "execution": "client", "arguments": {"query": "weather"}, "status": "completed"
            },
            {
                "type": "tool_search_output", "call_id": "call_1", "execution": "client",
                "status": "completed", "tools": [{
                    "type": "function", "name": "get_weather", "parameters": {"type": "object"},
                    "defer_loading": true
                }]
            }
        ],
        "tools": [],
        "store": false,
        "stream": false
    }"#);
    let state = ToolSearchState::build(&request).expect("prepared replay state");
    (request, state)
}

#[test]
fn declaration_free_replay_keeps_stream_translation_active_without_a_dispatch_entry() {
    let (_, state) = replayed_search_state();
    let mut registry = ToolRegistry::default();

    registry.classify_tool_search(&state).expect("replay classification");

    assert!(registry.lookup("tool_search").is_none());
    let types = registry.tool_type_map();
    assert_eq!(types.get(&"tool_search".to_owned()), Some(&ToolType::ToolSearch));
}

#[test]
fn streaming_search_id_collision_is_atomic() {
    let (_, state) = replayed_search_state();
    let mut registry = ToolRegistry::default();
    registry.classify_tool_search(&state).expect("replay classification");
    let mut output = output_items(r#"[
        {
            "type": "function_call", "id": "fc_same", "call_id": "call_search",
            "name": "tool_search", "arguments": "{}", "status": "completed"
        },
        {
            "type": "tool_search_call", "id": "tsc_same", "call_id": "call_existing",
            "execution": "client", "arguments": {}, "status": "completed"
        }
    ]"#);
    let before = output.clone();

    let error = registry
        .restore_final_payload_output(&mut output)
        .expect_err("public ID collision must fail");

    assert!(matches!(
        error,
        ToolError::Execution(message) if message == "upstream returned an invalid tool-search call"
    ));
    assert_eq!(output, before);
}

fn mixed_tool_declarations() -> Vec<ResponsesTool> {
    tools_of(r#"[
        {
            "type": "function",
            "name": "echo",
            "parameters": {"type": "object"}
        },
        {
            "type": "mcp",
            "server_label": "counter",
            "server_url": "http://127.0.0.1:8000/mcp",
            "require_approval": "never"
        },
        {"type": "web_search_preview", "search_context_size": "low"},
        {"type": "file_search", "vector_store_ids": ["vs_test"]},
        {"type": "code_interpreter"},
        {
            "type": "namespace",
            "name": "mcp__shell",
            "tools": [{"type": "function", "name": "run"}]
        },
        {"type": "custom", "name": "freeform"},
        {"type": "future_tool", "opaque": true}
    ]"#)
}

fn assert_namespace_call_restoration(registry: &ToolRegistry) {
    let mut output = vec![OutputItem::FunctionCall(FunctionToolCall {
        id: "fc_1".to_owned(),
        call_id: "call_1".to_owned(),
        name: "agentic_ns__mcp__shell__run".to_owned(),
        namespace: None,
        arguments: "{}".to_owned(),
        status: MessageStatus::Completed,
    })];
    registry
        .restore_final_payload_output(&mut output)
        .expect("ordinary namespace restoration succeeds");
    let OutputItem::FunctionCall(call) = &output[0] else {
        panic!("expected restored function call");
    };
    assert_eq!(call.namespace.as_deref(), Some("mcp__shell"));
    assert_eq!(call.name, "run");
}

fn assert_mcp_list_tools_metadata(registry: &ToolRegistry) {
    let [list_tools] = registry.mcp_list_tools_items().as_slice() else {
        panic!("expected one MCP list-tools item");
    };
    assert!(list_tools.id.starts_with("mcpl_"));
    assert_eq!(list_tools.server_label, "counter");
    assert_eq!(
        list_tools
            .tools
            .iter()
            .map(|tool| tool.name.as_str())
            .collect::<Vec<_>>(),
        ["increment", "get_value"]
    );
    assert_eq!(list_tools.tools[0].description.as_deref(), Some("Discovered test tool"));
    assert_eq!(
        Json::Object(list_tools.tools[0].input_schema.clone()),
        json(r#"{"type": "object"}"#)
    );
    assert_eq!(
        list_tools.tools[0].annotations,
        Some(json(r#"{"read_only": false}"#))
    );
}

#[test]
fn build_with_handlers_registers_mixed_tools_and_runtime_metadata() {
    let mut executors = GatewayExecutors::from_values(None, None);
    executors.insert(GatewayExecutorRegistration::Mcp {
        server_label: "counter".to_owned(),
        handlers: vec![
            discovered_handler("counter", "increment", "mcp__counter__increment"),
            discovered_handler("counter", "get_value", "mcp__counter__get_value"),
        ],
    });
    let mut tools = mixed_tool_declarations();

    let registry = ToolRegistry::build_with_handlers(&mut tools, &mut executors)
        .expect("mixed registry");

    assert_eq!(registry.len(), 8);
    assert!(registry.contains_mcp_server_label("counter"));
    assert!(!registry.contains_mcp_server_label("missing"));
    assert_mcp_list_tools_metadata(&registry);

    let expected_entries = [
        ("echo", ToolType::Function, None, false),
        ("freeform", ToolType::Custom, None, false),
        ("mcp__counter__increment", ToolType::Mcp, Some("counter"), true),
        ("mcp__counter__get_value", ToolType::Mcp, Some("counter"), true),
        ("web_search", ToolType::WebSearch, None, true),
        ("file_search", ToolType::FileSearch, None, false),
        ("code_interpreter", ToolType::CodeInterpreter, None, false),
        (
            "agentic_ns__mcp__shell__run",
            ToolType::CodexNamespace,
            Some("mcp__shell"),
            false,
        ),
    ];
    for (name, tool_type, server_label, has_handler) in expected_entries {
        let entry = registry
            .lookup(name)
            .unwrap_or_else(|| panic!("missing registry entry '{name}'"));
        assert_eq!(entry.tool_type, tool_type, "unexpected type for '{name}'");
        assert_eq!(
            entry.server_label.as_deref(),
            server_label,
            "unexpected server label for '{name}'"
        );
        assert_eq!(entry.handler.is_some(), has_handler, "unexpected handler for '{name}'");
    }
    assert_eq!(at(&registry.lookup("freeform").unwrap().config, &["name"]), Some(&Json::text("freeform")));
    assert_eq!(at(&registry.lookup("echo").unwrap().config, &["name"]), Some(&Json::text("echo")));
    assert_eq!(
        at(&registry.lookup("mcp__counter__increment").unwrap().config, &["tool_name"]),
        Some(&Json::text("increment"))
    );
    assert_eq!(
        at(&registry.lookup("web_search").unwrap().config, &["search_context_size"]),
        Some(&Json::text("low"))
    );
    assert_eq!(
        at(&registry.lookup("file_search").unwrap().config, &["vector_store_ids", "0"]),
        Some(&Json::text("vs_test"))
    );
    assert_eq!(
        at(&registry.lookup("agentic_ns__mcp__shell__run").unwrap().config, &["tools", "0", "name"]),
        Some(&Json::text("agentic_ns__mcp__shell__run"))
    );
    for name in [
        "mcp__counter__increment",
        "mcp__counter__get_value",
        "web_search",
        "file_search",
        "code_interpreter",
    ] {
        assert!(registry.is_gateway_owned_name(name), "'{name}' should be gateway-owned");
    }
    for name in ["echo", "freeform", "agentic_ns__mcp__shell__run"] {
        assert!(!registry.is_gateway_owned_name(name), "'{name}' should be client-owned");
    }

    let ResponsesTool::Mcp(declared) = &tools[1] else {
        panic!("expected MCP declaration");
    };
    assert_eq!(declared.discovered_tools.len(), 2);
    assert_eq!(
        tools[1]
            .to_function_tools()
            .into_iter()
            .map(|tool| tool.name)
            .collect::<Vec<_>>(),
        ["mcp__counter__increment", "mcp__counter__get_value"]
    );

    let ResponsesTool::Namespace(namespace) = &tools[5] else {
        panic!("expected namespace declaration");
    };
    assert!(matches!(
        namespace.tools.as_slice(),
        [CodexNamespaceMember::Function(function)] if function.name.as_str() == "run"
    ));
    assert_namespace_call_restoration(&registry);
}

#[test]
fn build_with_handlers_retains_mcp_discovery_failure_output() {
    let mut tools = vec![declaration("unreachable")];
    let mut executors = GatewayExecutors::default();
    executors.record_connection(
        "unreachable",
        McpConnection::Failed { reason: "connection refused".to_owned() },
    );

    let registry = ToolRegistry::build_with_handlers(&mut tools, &mut executors)
        .expect("discovery failures should become response metadata");

    let [list_tools] = registry.mcp_list_tools_items().as_slice() else {
        panic!("expected one MCP list-tools item");
    };
    assert_eq!(list_tools.server_label, "unreachable");
    assert!(list_tools.tools.is_empty());
    assert!(
        list_tools
            .error
            .as_deref()
            .is_some_and(|error| error.contains("failed"))
    );
    assert!(registry.is_empty());
}

#[test]
fn duplicate_mcp_server_labels_are_rejected() {
    let mut tools = vec![declaration("counter"), declaration("counter")];
    let mut executors = GatewayExecutors::default();

    let error = ToolRegistry::build_with_handlers(&mut tools, &mut executors)
        .err()
        .expect("duplicate server_label must fail");

    assert!(
        matches!(error, ToolError::Config(message) if message.contains("duplicate MCP declarations") && message.contains("counter"))
    );
}

#[test]
fn cross_server_internal_name_collisions_are_rejected() {
    let internal_name = "mcp__foo__bar__baz";
    let mut executors = GatewayExecutors::default();
    executors.insert(GatewayExecutorRegistration::Mcp {
        server_label: "foo".to_owned(),
        handlers: vec![discovered_handler("foo", "bar__baz", internal_name)],
    });
    executors.insert(GatewayExecutorRegistration::Mcp {
        server_label: "foo__bar".to_owned(),
        handlers: vec![discovered_handler("foo__bar", "baz", internal_name)],
    });
    let mut tools = vec![declaration("foo"), declaration("foo__bar")];

    let error = ToolRegistry::build_with_handlers(&mut tools, &mut executors)
        .err()
        .expect("colliding derived MCP names must fail");

    assert!(matches!(
        error,
        ToolError::Config(message)
            if message.contains(internal_name) && message.matches("MCP tool").count() == 2
    ));
}

#[test]
fn discovered_mcp_name_collision_with_function_is_rejected_in_any_order() {
    let internal_name = "mcp__counter__increment";

    for mcp_first in [false, true] {
        let function =
            tool(&format!(r#"{{"type": "function", "name": "{internal_name}"}}"#));
        let mcp = declaration("counter");
        let mut tools = if mcp_first {
            vec![mcp, function]
        } else {
            vec![function, mcp]
        };
        let mut executors = GatewayExecutors::default();
        executors.insert(GatewayExecutorRegistration::Mcp {
            server_label: "counter".to_owned(),
            handlers: vec![discovered_handler("counter", "increment", internal_name)],
        });

        let error = ToolRegistry::build_with_handlers(&mut tools, &mut executors)
            .err()
        .expect("MCP internal name must not overwrite a function");

        assert!(matches!(
            error,
            ToolError::Config(message)
                if message.contains(internal_name)
                    && message.contains("MCP tool")
                    && message.contains("function tool")
        ));
    }
}

#[test]
fn every_call_has_one_owner() {
    let mut tools = tools_of(
        r#"[{"type": "function", "name": "echo"}, {"type": "web_search_preview"},
            {"type": "file_search", "vector_store_ids": []}]"#,
    );
    let mut executors = GatewayExecutors::from_values(Some("key".to_owned()), None);
    let registry = ToolRegistry::build_with_handlers(&mut tools, &mut executors).unwrap();
    let calls: Vec<FunctionToolCall> = ["echo", "web_search", "unknown", "file_search"]
        .iter()
        .map(|name| FunctionToolCall {
            id: "fc_1".to_owned(),
            call_id: "call_1".to_owned(),
            name: (*name).to_owned(),
            namespace: None,
            arguments: "{}".to_owned(),
            status: MessageStatus::Completed,
        })
        .collect();
    let names = |owned: Vec<&FunctionToolCall>| {
        owned.iter().map(|call| call.name.clone()).collect::<Vec<_>>()
    };
    assert_eq!(names(registry.gateway_owned(&calls)), ["web_search", "file_search"]);
    assert_eq!(names(registry.client_owned(&calls)), ["echo", "unknown"]);

    let dispatch = registry.dispatch(&calls[1]).expect("web searches are run");
    assert_eq!(dispatch.tool_type, ToolType::WebSearch);
    assert!(registry.dispatch(&calls[0]).is_none());
    assert!(registry.dispatch(&calls[2]).is_none());
    assert!(registry.dispatch(&calls[3]).is_none());

    let owner = |name: &str| registry.lookup(name).unwrap().ownership();
    assert!(!owner("echo").is_gateway());
    assert!(owner("file_search").is_gateway());
    match owner("web_search") {
        ToolOwnership::Gateway(Some(binding)) => {
            assert_eq!(binding.self_exclusion, !binding.handler.supports_parallel_execution());
        }
        _ => panic!("expected a handler"),
    }
}

#[test]
fn custom_tools_of_a_response_are_declared_publicly_again() {
    let mut tools = tools_of(r#"[
        {"type": "custom", "name": "raw_echo", "description": "Echo", "format": {"type": "text"}},
        {"type": "function", "name": "lookup", "parameters": {"type": "object"}}
    ]"#);
    let registry = ToolRegistry::build_with_ids(
        &mut tools,
        &mut GatewayExecutors::new(),
        &Vec::new(),
    ).unwrap();
    let event = r#"data: {"type": "response.created", "response": {"id": "resp_1", "tools": [
        {"type": "function", "name": "raw_echo", "parameters": {}},
        {"type": "function", "name": "lookup", "parameters": {}}]}}"#.replace('\n', " ");
    let mut wire = normalize_sse_line(&event).unwrap().wire;
    assert!(registry.restore_stream_event_wire(&mut wire));
    let shown = wire.to_json();
    assert_eq!(at(&shown, &["response", "tools", "0", "type"]), Some(&Json::text("custom")));
    assert_eq!(at(&shown, &["response", "tools", "0", "description"]), Some(&Json::text("Echo")));
    assert_eq!(at(&shown, &["response", "tools", "1", "type"]), Some(&Json::text("function")));
    assert!(!registry.restore_stream_event_wire(&mut wire));
}
