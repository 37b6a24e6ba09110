//! Requests, as clients send them and as they go to the model, and responses as they are sent.
use agentic_core::items::{InputItem, ResponsesInput};
use agentic_core::json::{Json, JsonObject};
use agentic_core::payload::{CompactRequest, RequestPayload, ResponsePayload, UpstreamTool};
use agentic_core::readiness::ToolSearchReadiness;
use agentic_core::tools::{ResponsesTool, ToolChoice};
use agentic_core::wire::{FromJson, ToJson};

fn json(text: &str) -> Json {
    Json::parse(text).expect("valid JSON")
}

fn request(text: &str) -> RequestPayload {
    RequestPayload::from_json(&json(text)).expect("request should deserialize")
}

fn at<'a>(value: &'a Json, path: &[&str]) -> Option<&'a Json> {
    let mut here = value;
    for key in path {
        here = match here {
            Json::Array(items) => items.get(key.parse::<usize>().ok()?)?,
            other => other.get(key)?,
        };
    }
    Some(here)
}

fn count(value: &Json) -> usize {
    match value {
        Json::Array(items) => items.len(),
        other => panic!("expected a list, got {other:?}"),
    }
}

fn tool_search_declaration() -> Json {
    json(r#"{
        "type": "tool_search",
        "execution": "client",
        "description": "Find a tool",
        "parameters": {
            "type": "object",
            "properties": {"query": {"type": "string"}}
        }
    }"#)
}

fn tool_search_request(
    tools: Vec<Json>,
    input: Json,
    parallel_tool_calls: Option<bool>,
) -> RequestPayload {
    let mut request = JsonObject::new();
    request.set_str("model", "test");
    let parallel = match parallel_tool_calls {
        Some(flag) => Json::Bool(flag),
        None => Json::Null,
    };
    request.set("parallel_tool_calls", parallel);
    request.set("input", input);
    request.set("tools", Json::Array(tools));
    RequestPayload::from_json(&Json::Object(request)).expect("request fixture should deserialize")
}

#[test]
fn tool_search_contract_rejects_request_wide_violations() {
    let cases = [
        (
            "multiple declarations",
            tool_search_request(
                vec![tool_search_declaration(), tool_search_declaration()],
                json(r#""hi""#),
                None,
            ),
        ),
        (
            "parallel calling",
            tool_search_request(vec![tool_search_declaration()], json(r#""hi""#), Some(true)),
        ),
        (
            "reserved function name",
            tool_search_request(
                vec![
                    tool_search_declaration(),
                    json(r#"{"type": "function", "name": "tool_search"}"#),
                ],
                json(r#""hi""#),
                None,
            ),
        ),
        (
            "reserved custom name",
            tool_search_request(
                vec![
                    tool_search_declaration(),
                    json(r#"{"type": "custom", "name": "tool_search"}"#),
                ],
                json(r#""hi""#),
                None,
            ),
        ),
        (
            "unsupported returned tool",
            tool_search_request(
                vec![tool_search_declaration()],
                json(r#"[
                    {
                        "type": "tool_search_call",
                        "id": "tsc_1",
                        "call_id": "call_search_1",
                        "arguments": {"query": "weather"}
                    },
                    {
                        "type": "tool_search_output",
                        "call_id": "call_search_1",
                        "tools": [{"type": "custom", "name": "raw"}]
                    }
                ]"#),
                None,
            ),
        ),
    ];

    for (case, request) in cases {
        assert!(
            request.to_upstream_request(false).is_err(),
            "tool-search request should reject {case}"
        );
    }
}

fn request_with_returned_tools(returned_tools: Vec<Json>) -> RequestPayload {
    let history = format!(
        r#"[
            {{
                "type": "tool_search_call",
                "id": "tsc_1",
                "call_id": "call_search_1",
                "arguments": {{"query": "weather"}}
            }},
            {{
                "type": "tool_search_output",
                "call_id": "call_search_1",
                "tools": {}
            }}
        ]"#,
        Json::Array(returned_tools).to_text()
    );
    tool_search_request(vec![tool_search_declaration()], json(&history), Some(false))
}

#[test]
fn tool_search_contract_accepts_supported_returned_tool_kinds() {
    for returned_tools in [
        vec![],
        vec![json(r#"{
            "type": "function",
            "name": "get_weather",
            "parameters": {"type": "object"}
        }"#)],
        vec![json(r#"{
            "type": "namespace",
            "name": "weather",
            "tools": [{
                "type": "function",
                "name": "forecast",
                "parameters": {"type": "object"}
            }]
        }"#)],
        vec![json(r#"{
            "type": "mcp",
            "server_label": "weather",
            "server_url": "https://mcp.example.test"
        }"#)],
    ] {
        assert_eq!(
            request_with_returned_tools(returned_tools)
                .tool_search_readiness()
                .expect("supported returned tools pass contract validation"),
            ToolSearchReadiness::StatePreparationRequired
        );
    }
}

#[test]
fn tool_search_contract_accepts_declaration_free_manual_public_replay() {
    assert_eq!(
        tool_search_request(
            vec![],
            json(r#"[
                {
                    "type": "tool_search_call",
                    "id": "tsc_1",
                    "call_id": "call_search_1",
                    "arguments": {"query": "weather"}
                },
                {
                    "type": "tool_search_output",
                    "call_id": "call_search_1",
                    "tools": []
                }
            ]"#),
            Some(false),
        )
        .tool_search_readiness()
        .expect("manual public replay is valid without redeclaring tool_search"),
        ToolSearchReadiness::StatePreparationRequired
    );
}

#[test]
fn deferred_declarations_require_tool_search_state_preparation() {
    for tool in [
        json(r#"{
            "type": "function",
            "name": "deferred_function",
            "defer_loading": true
        }"#),
        json(r#"{
            "type": "mcp",
            "server_label": "deferred_server",
            "server_url": "https://mcp.example.test/mcp",
            "defer_loading": true
        }"#),
        json(r#"{
            "type": "namespace",
            "name": "deferred_namespace",
            "tools": [{
                "type": "function",
                "name": "deferred_member",
                "defer_loading": true
            }]
        }"#),
    ] {
        let request = tool_search_request(vec![tool], json(r#""hi""#), Some(false));
        assert!(request.contains_tool_search_state());
        assert_eq!(
            request
                .tool_search_readiness()
                .expect("deferred declaration is a valid tool-search trigger"),
            ToolSearchReadiness::StatePreparationRequired
        );
        assert!(request.to_upstream_request(false).is_err());
    }
}

#[test]
fn tool_search_contract_rejects_every_unsupported_returned_tool_kind() {
    for returned_tool in [
        json(r#"{"type": "web_search_preview"}"#),
        json(r#"{"type": "file_search", "vector_store_ids": []}"#),
        json(r#"{"type": "code_interpreter"}"#),
        json(r#"{"type": "custom", "name": "raw"}"#),
        tool_search_declaration(),
        json(r#"{"type": "future_tool", "opaque": true}"#),
        json(r#"{
            "type": "namespace",
            "name": "mixed",
            "tools": [
                {"type": "function", "name": "valid"},
                {"type": "future_member", "opaque": true}
            ]
        }"#),
    ] {
        assert!(
            request_with_returned_tools(vec![returned_tool])
                .tool_search_readiness()
                .is_err(),
            "unsupported returned tool kind must fail validation"
        );
    }
}

#[test]
fn to_upstream_request_rejects_unprepared_tool_search_state() {
    let request = tool_search_request(
        vec![tool_search_declaration()],
        json(r#"[
            {
                "type": "tool_search_call",
                "id": "tsc_1",
                "call_id": "call_search_1",
                "arguments": {"query": "weather"}
            },
            {
                "type": "tool_search_output",
                "call_id": "call_search_1",
                "tools": []
            }
        ]"#),
        Some(false),
    );

    assert!(
        request.to_upstream_request(false).is_err(),
        "unprepared tool-search state must not be silently dropped or lowered"
    );
}

#[test]
fn reserved_tool_search_name_is_allowed_without_tool_search_state() {
    let request = tool_search_request(
        vec![json(r#"{"type": "function", "name": "tool_search"}"#)],
        json(r#""hi""#),
        Some(true),
    );

    let upstream = request
            .to_upstream_request(false)
            .expect("reserved name applies only while tool search is active").to_json();
    assert_eq!(at(&upstream, &["tools", "0", "name"]), Some(&Json::text("tool_search")));
    assert_eq!(at(&upstream, &["parallel_tool_calls"]), Some(&Json::Bool(true)));
}

#[test]
fn compact_request_accepts_codex_compatibility_fields() {
    let request = CompactRequest::from_json(&json(r#"{
        "model": "test-model",
        "input": [{"role": "user", "content": "hello"}],
        "tools": [],
        "parallel_tool_calls": true,
        "reasoning": {"effort": "medium"},
        "text": {"verbosity": "low"}
    }"#)).expect("compact request should parse");

    assert_eq!(request.model, "test-model");
    assert!(request.input.is_some());
    assert_eq!(request.compatibility.entries.len(), 4);
}

#[test]
fn request_payload_forwards_cache_salt_upstream() {
    let payload = request(r#"{
        "model": "test-model",
        "input": "hello",
        "cache_salt": "tenant-a"
    }"#);

    let upstream = payload.to_upstream_request(false).expect("request should normalize").to_json();

    assert_eq!(at(&upstream, &["cache_salt"]), Some(&Json::text("tenant-a")));
}

#[test]
fn request_payload_uses_option_tool_choice_for_missing_vs_explicit() {
    let absent = request(r#"{
        "model": "test",
        "input": "hi"
    }"#);
    assert_eq!(absent.tool_choice, None);

    let explicit = request(r#"{
        "model": "test",
        "input": "hi",
        "tool_choice": "none"
    }"#);
    assert_eq!(explicit.tool_choice, Some(ToolChoice::Never));
}

#[test]
fn to_upstream_request_carries_instructions_forward() {
    let payload = request(r#"{
        "model": "test",
        "instructions": "rules",
        "input": "hi"
    }"#);

    assert_eq!(payload.instructions.as_deref(), Some("rules"));
    assert!(matches!(&payload.input, ResponsesInput::Text(text) if text == "hi"));

    let upstream = payload.to_upstream_request(false).expect("valid upstream request");
    let value = upstream.to_json();
    assert_eq!(at(&value, &["instructions"]), Some(&Json::text("rules")));
    assert_eq!(at(&value, &["input"]), Some(&Json::text("hi")));
}

#[test]
fn to_upstream_request_preserves_parallel_tool_calls() {
    let payload = request(r#"{
        "model": "test",
        "input": "hi",
        "parallel_tool_calls": false
    }"#);

    let upstream = payload.to_upstream_request(false).expect("valid upstream request");
    let value = upstream.to_json();
    assert_eq!(at(&value, &["parallel_tool_calls"]), Some(&Json::Bool(false)));
}

#[test]
fn to_upstream_request_allows_parallel_tool_calls_for_client_function_tools() {
    let payload = request(r#"{
        "model": "test",
        "input": "hi",
        "parallel_tool_calls": true,
        "tools": [{"type": "function", "name": "get_weather"}]
    }"#);

    let upstream = payload
        .to_upstream_request(false)
        .expect("function tools allow parallel calls");
    let value = upstream.to_json();
    assert_eq!(at(&value, &["parallel_tool_calls"]), Some(&Json::Bool(true)));
}

#[test]
fn to_upstream_request_validates_parallel_tool_calls_for_mixed_tools() {
    for built_in_tool in builtin_tool_declarations() {
        for (parallel_tool_calls, should_reject) in [(false, false), (true, true)] {
            let payload = request(&format!(
                r#"{{
                    "model": "test",
                    "input": "hi",
                    "parallel_tool_calls": {},
                    "tools": [
                        {{"type": "function", "name": "get_weather"}},
                        {}
                    ]
                }}"#,
                parallel_tool_calls,
                built_in_tool.to_text()
            ));

            let result = payload.to_upstream_request(false);
            if should_reject {
                let err = result.expect_err("built-in tools should reject parallel tool calls");
                assert!(err.message().contains("parallel_tool_calls must be false"));
            } else {
                let value =
                    result.expect("mixed built-in and function tools allow serial calls").to_json();
                assert_eq!(at(&value, &["parallel_tool_calls"]), Some(&Json::Bool(false)));
            }
        }
    }
}

#[test]
fn to_upstream_request_sets_serial_tool_calls_for_builtin_tools() {
    for tool in builtin_tool_declarations() {
        let payload = request(&format!(
            r#"{{"model": "test", "input": "hi", "tools": [{}]}}"#,
            tool.to_text()
        ));

        let upstream = payload
            .to_upstream_request(false)
            .expect("built-in tools default to serial tool calls");
        let value = upstream.to_json();
        assert_eq!(at(&value, &["parallel_tool_calls"]), Some(&Json::Bool(false)));
    }
}

#[test]
fn to_upstream_request_rejects_parallel_tool_calls_for_builtin_tools() {
    for tool in builtin_tool_declarations() {
        let payload = request(&format!(
            r#"{{
                "model": "test",
                "input": "hi",
                "parallel_tool_calls": true,
                "tools": [{}]
            }}"#,
            tool.to_text()
        ));

        let Err(err) = payload.to_upstream_request(false) else {
            panic!("built-in tools should reject parallel_tool_calls=true");
        };

        assert!(err.message().contains("parallel_tool_calls must be false"));
    }
}

#[test]
fn to_upstream_request_allows_builtin_tools_with_serial_tool_calls() {
    for tool in builtin_tool_declarations() {
        let payload = request(&format!(
            r#"{{
                "model": "test",
                "input": "hi",
                "parallel_tool_calls": false,
                "tools": [{}]
            }}"#,
            tool.to_text()
        ));

        let upstream = payload
            .to_upstream_request(false)
            .expect("serial built-in tool request is valid");
        let value = upstream.to_json();
        assert_eq!(at(&value, &["parallel_tool_calls"]), Some(&Json::Bool(false)));
    }
}

fn builtin_tool_declarations() -> Vec<Json> {
    vec![
        json(r#"{
            "type": "mcp",
            "server_label": "repo",
            "server_url": "http://localhost:9001/mcp"
        }"#),
        json(r#"{"type": "web_search_preview"}"#),
        json(r#"{"type": "file_search", "vector_store_ids": ["vs_abc"]}"#),
        json(r#"{"type": "code_interpreter"}"#),
    ]
}

#[test]
fn to_upstream_request_flattens_namespace_and_skips_unknown_tools() {
    let payload = request(r#"{
        "model": "test",
        "input": "hi",
        "tools": [
            {
                "type": "namespace",
                "name": "mcp__shell",
                "tools": [
                    {"type": "function", "name": "run", "parameters": {"type": "object"}},
                    {"type": "future_member", "opaque": true}
                ]
            },
            {"type": "future_tool", "opaque": true}
        ]
    }"#);

    let tools = payload.tools.as_ref().expect("tools should preserve explicit presence");
    assert_eq!(tools.len(), 2);
    let ResponsesTool::Namespace(namespace) = &tools[0] else {
        panic!("expected namespace tool");
    };
    assert_eq!(namespace.tools.len(), 2);

    let upstream = payload.to_upstream_request(false).expect("valid upstream request");
    let value = upstream.to_json();
    assert_eq!(count(at(&value, &["tools"]).expect("upstream tools")), 1);
    assert_eq!(at(&value, &["tools", "0", "name"]), Some(&Json::text("agentic_ns__mcp__shell__run")));
}

#[test]
fn to_upstream_request_rejects_namespace_collisions() {
    let payload = request(r#"{
        "model": "test",
        "input": "hi",
        "tools": [
            {"type": "function", "name": "agentic_ns__mcp__shell__run"},
            {
                "type": "namespace",
                "name": "mcp__shell",
                "tools": [{"type": "function", "name": "run"}]
            }
        ]
    }"#);

    let Err(err) = payload.to_upstream_request(false) else {
        panic!("colliding namespace member should be rejected");
    };

    assert!(err.message().contains("collides with a declared function tool"));
}

#[test]
fn to_upstream_request_normalizes_custom_tools_to_functions() {
    let payload = request(r#"{
        "model": "test",
        "input": "hi",
        "tool_choice": {
            "type": "custom",
            "name": "apply_patch"
        },
        "tools": [
            {
                "type": "function",
                "name": "read_file",
                "description": "Read a file.",
                "parameters": {"type": "object"}
            },
            {
                "type": "custom",
                "name": "apply_patch",
                "description": "Apply a patch.",
                "x-provider-field": {"mode": "strict"}
            }
        ]
    }"#);

    let request = payload.to_upstream_request(false).unwrap();
    let tools = request.tools.as_ref().expect("mixed upstream tools");
    let UpstreamTool::Function(first) = &tools[0];
    let UpstreamTool::Function(second) = &tools[1];
    assert_eq!(first.name, "read_file");
    assert_eq!(second.name, "apply_patch");

    let upstream = request.to_json();
    assert_eq!(at(&upstream, &["tools", "0", "type"]), Some(&Json::text("function")));
    assert_eq!(at(&upstream, &["tools", "0", "name"]), Some(&Json::text("read_file")));
    assert_eq!(at(&upstream, &["tools", "1", "type"]), Some(&Json::text("function")));
    assert_eq!(at(&upstream, &["tools", "1", "name"]), Some(&Json::text("apply_patch")));
    let custom_description = at(&upstream, &["tools", "1", "description"])
        .and_then(Json::as_str)
        .expect("custom tool description");
    assert!(custom_description.contains("Apply a patch."));
    assert!(custom_description.contains("raw tool input in the `input` string field"));
    assert!(custom_description.contains("x-provider-field"));
    assert_eq!(
        at(&upstream, &["tools", "1", "parameters", "properties", "input", "type"]),
        Some(&Json::text("string"))
    );
    assert_eq!(at(&upstream, &["tools", "1", "parameters", "required", "0"]), Some(&Json::text("input")));
    assert_eq!(at(&upstream, &["tool_choice", "type"]), Some(&Json::text("function")));
    assert_eq!(at(&upstream, &["tool_choice", "name"]), Some(&Json::text("apply_patch")));

    let deserialized = ResponsesTool::from_json(at(&upstream, &["tools", "1"]).expect("a tool")).expect("upstream function tool should deserialize");
    assert!(matches!(deserialized, ResponsesTool::Function(tool) if tool.name == "apply_patch"));
}

#[test]
fn to_upstream_request_rejects_custom_tool_grammar_formats() {
    let payload = request(r#"{
        "model": "test",
        "input": "hi",
        "tools": [{
            "type": "custom",
            "name": "constrained_input",
            "format": {
                "type": "grammar",
                "syntax": "lark",
                "definition": "start: value"
            }
        }]
    }"#);

    let error = payload
        .to_upstream_request(false)
        .expect_err("unsupported grammar must fail closed");
    assert!(error.message().contains("cannot preserve constrained decoding"));
}

#[test]
fn to_upstream_request_normalizes_custom_allowed_tool_choices() {
    let payload = request(r#"{
        "model": "test",
        "input": "hi",
        "tool_choice": {
            "type": "allowed_tools",
            "mode": "required",
            "tools": [
                {"type": "function", "name": "read_file"},
                {"type": "custom", "name": "apply_patch"}
            ]
        },
        "tools": [
            {"type": "function", "name": "read_file"},
            {"type": "custom", "name": "apply_patch"}
        ]
    }"#);

    let public_choice = payload.tool_choice.as_ref().unwrap().to_json();
    assert_eq!(at(&public_choice, &["tools", "1", "type"]), Some(&Json::text("custom")));

    let upstream = payload.to_upstream_request(false).unwrap().to_json();
    assert_eq!(at(&upstream, &["tool_choice", "type"]), Some(&Json::text("allowed_tools")));
    assert_eq!(at(&upstream, &["tool_choice", "mode"]), Some(&Json::text("required")));
    assert_eq!(at(&upstream, &["tool_choice", "tools", "0", "type"]), Some(&Json::text("function")));
    assert_eq!(at(&upstream, &["tool_choice", "tools", "1", "type"]), Some(&Json::text("function")));
    assert_eq!(at(&upstream, &["tool_choice", "tools", "1", "name"]), Some(&Json::text("apply_patch")));
}

#[test]
fn to_upstream_request_rejects_custom_choice_for_function_declaration() {
    let payload = request(r#"{
        "model": "test",
        "input": "hi",
        "tool_choice": {"type": "custom", "name": "echo"},
        "tools": [{"type": "function", "name": "echo"}]
    }"#);

    let error = payload
        .to_upstream_request(false)
        .expect_err("a custom selector must match a custom declaration");
    assert!(error.message().contains("no matching custom tool is declared"));
}

#[test]
fn to_upstream_request_rejects_unknown_custom_allowed_tool() {
    let payload = request(r#"{
        "model": "test",
        "input": "hi",
        "tool_choice": {
            "type": "allowed_tools",
            "mode": "required",
            "tools": [{"type": "custom", "name": "missing"}]
        },
        "tools": [{"type": "custom", "name": "apply_patch"}]
    }"#);

    let error = payload
        .to_upstream_request(false)
        .expect_err("an allowed custom selector must match a custom declaration");
    assert!(error.message().contains("no matching custom tool is declared"));
}

#[test]
fn responses_input_discards_unknown_items_when_converted_for_storage() {
    let input = ResponsesInput::from_json(&json(r#"[
        {"type": "message", "role": "user", "content": "hi"},
        {"type": "future_item", "payload": {"a": 1}}
    ]"#)).expect("an input");

    let items = input.to_items();
    assert_eq!(items.len(), 1);
    assert!(matches!(items[0], InputItem::Message(_)));
}

#[test]
fn response_payload_terminal_chunk_uses_status_specific_event_type() {
    let mut payload = ResponsePayload {
        id: "resp_test".to_string(),
        object: "response".to_string(),
        created_at: 0,
        model: "test-model".to_string(),
        status: "completed".to_string(),
        output: Vec::new(),
        usage: None,
        incomplete_details: None,
        error: None,
        previous_response_id: None,
        conversation_id: None,
        instructions: None,
    };

    for (status, expected_type) in [
        ("completed", "response.completed"),
        ("incomplete", "response.incomplete"),
        ("failed", "response.failed"),
        ("error", "response.failed"),
        ("in_progress", "response.in_progress"),
    ] {
        payload.status = status.to_string();
        let chunk = payload.as_terminal_response_chunk();
        let data = chunk.trim().strip_prefix("data: ").unwrap();
        let event = json(data);
        assert_eq!(at(&event, &["type"]), Some(&Json::text(expected_type)));
        assert_eq!(at(&event, &["response", "status"]), Some(&Json::text(status)));
    }
}

#[test]
fn response_payload_created_chunk_uses_in_progress_status() {
    let payload = ResponsePayload {
        id: "resp_test".to_string(),
        object: "response".to_string(),
        created_at: 0,
        model: "test-model".to_string(),
        status: "completed".to_string(),
        output: Vec::new(),
        usage: None,
        incomplete_details: None,
        error: None,
        previous_response_id: None,
        conversation_id: None,
        instructions: None,
    };

    let chunk = payload.as_created_response_chunk();
    let data = chunk.trim().strip_prefix("data: ").unwrap();
    let event = json(data);
    assert_eq!(at(&event, &["type"]), Some(&Json::text("response.created")));
    assert_eq!(at(&event, &["response", "id"]), Some(&Json::text("resp_test")));
    assert_eq!(at(&event, &["response", "status"]), Some(&Json::text("in_progress")));
}

#[test]
fn the_chunk_of_a_response_keeps_the_order_of_its_fields() {
    let payload = ResponsePayload {
        id: "resp_test".to_string(),
        object: "response".to_string(),
        created_at: 7,
        model: "test-model".to_string(),
        status: "completed".to_string(),
        output: Vec::new(),
        usage: None,
        incomplete_details: None,
        error: Some(json(r#"{"b": 1, "a": "x\"y"}"#)),
        previous_response_id: Some("resp_before".to_string()),
        conversation_id: None,
        instructions: None,
    };
    let text = [
        r#"{"id":"resp_test","object":"response","created_at":7,"model":"test-model","#,
        r#""status":"completed","output":[],"usage":null,"incomplete_details":null,"#,
        r#""error":{"a":"x\"y","b":1},"previous_response_id":"resp_before","#,
        r#""conversation_id":null,"instructions":null}"#,
    ]
    .concat();
    assert_eq!(payload.to_text(), text);
    assert_eq!(payload.as_responses_chunk(), format!("data: {text}\n\n"));
    assert_eq!(json(&text), payload.to_json());
}

#[test]
fn what_an_upstream_is_sent_keeps_the_order_of_its_fields() {
    let upstream = request(
        r#"{"model": "m", "input": "hi", "top_p": 1, "temperature": 0.5, "instructions": "be kind"}"#,
    )
    .to_upstream_request(true)
    .unwrap();
    assert_eq!(
        upstream.to_text(),
        [
            r#"{"model":"m","input":"hi","stream":true,"instructions":"be kind","#,
            r#""temperature":0.5,"top_p":1.0,"cache_salt":null}"#,
        ]
        .concat()
    );
    assert_eq!(json(&upstream.to_text()), upstream.to_json());
}

#[test]
fn a_whole_number_is_read_as_a_float() {
    let upstream = request(r#"{"model": "m", "input": "hi", "temperature": 1, "top_p": 0}"#)
        .to_upstream_request(false)
        .unwrap()
        .to_json();
    assert_eq!(upstream.get("temperature").unwrap().to_text(), "1.0");
    assert_eq!(upstream.get("top_p").unwrap().to_text(), "0.0");
    let refused = json(r#"{"model": "m", "input": "hi", "temperature": "1"}"#);
    assert!(RequestPayload::from_json(&refused).is_none());
}

#[test]
fn records_may_be_lists_in_the_order_of_their_fields() {
    let fields = r#""m", [["message", "user", [["input_text", "hi"], ["later", 1]]],
        ["function_call_output", "call_1", "out"],
        ["custom_tool_call_output", "call_2", null, {"a": 1}],
        ["later", 1, 2]],
        null, "resp_before", null, null, "auto", true, false, null, 1, null, 16, null,
        {"k": "v"}, null"#;
    let listed = request(&format!("[{fields}]"));
    assert_eq!(listed.model, "m");
    assert_eq!(listed.previous_response_id.as_deref(), Some("resp_before"));
    assert!(listed.stream);
    assert!(!listed.store);
    assert_eq!(listed.max_output_tokens, Some(16));
    assert_eq!(listed.metadata, Some(json(r#"{"k": "v"}"#)));
    assert!(listed.context_management.is_none());
    let ResponsesInput::Items(items) = &listed.input else {
        panic!("expected items");
    };
    assert_eq!(items.len(), 4);
    let InputItem::FunctionCallOutput(output) = &items[1] else {
        panic!("expected the output of a call");
    };
    assert_eq!(output.call_id, "call_1");
    let InputItem::CustomToolCallOutput(output) = &items[2] else {
        panic!("expected the output of a custom call");
    };
    assert_eq!(output.output, json(r#"{"a": 1}"#));
    assert!(matches!(items[3], InputItem::Unknown));

    let longest = request(&format!(r#"[{fields}, "salt", [["compaction", 4096]]]"#));
    assert_eq!(longest.cache_salt.as_deref(), Some("salt"));
    assert_eq!(longest.context_management.unwrap()[0].compact_threshold, Some(4096));
    for refused in [r#"["m", "hi"]"#, "[]"] {
        assert!(RequestPayload::from_json(&json(refused)).is_none());
    }
    let too_long = json(&format!(r#"[{fields}, "salt", null, null]"#));
    assert!(RequestPayload::from_json(&too_long).is_none());
    for refused in [
        r#"["message", "user"]"#,
        r#"["function_call", "fc_1", "call_1", "name", "{}"]"#,
        r#"["reasoning"]"#,
        "[]",
        "[7]",
    ] {
        assert!(InputItem::from_json(&json(refused)).is_none());
    }
}
