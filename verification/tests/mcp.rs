//! Tools of MCP servers: their names, their functions and what their calls give.
use agentic_core::error::ToolError;
use agentic_core::handler::ToolOutput;
use agentic_core::items::{FunctionToolCall, GatewayCallStatus, MessageStatus, OutputItem};
use agentic_core::json::Json;
use agentic_core::mcp::{
    internal_mcp_tool_name, mcp_tool_result_text, output_item, sanitize_internal_tool_name,
    McpCallResult, McpHandler, McpToolMap, McpToolRef, MAX_INTERNAL_TOOL_NAME_LEN,
};
use agentic_core::tables::Table;
use agentic_core::tools::{McpDiscoveredToolParam, McpTool};
use agentic_core::wire::{FromJson, ToJson};

fn json(text: &str) -> Json {
    Json::parse(text).expect("valid JSON")
}

fn discovered_param() -> McpDiscoveredToolParam {
    McpDiscoveredToolParam {
        server_label: "counter".to_owned(),
        tool_name: "increment".to_owned(),
        internal_name: "mcp__counter__increment".to_owned(),
        tool: McpTool::from_json(&json(
            r#"{
                "name": "increment",
                "description": "Increment the counter",
                "inputSchema": {"type": "object"}
            }"#,
        ))
        .expect("valid MCP tool"),
    }
}

fn call(name: &str, arguments: &str) -> FunctionToolCall {
    FunctionToolCall {
        id: "fc_1".to_owned(),
        call_id: "call_1".to_owned(),
        name: name.to_owned(),
        arguments: arguments.to_owned(),
        status: MessageStatus::Completed,
        namespace: None,
    }
}

fn call_result(text: &str) -> McpCallResult {
    McpCallResult::from_json(&json(text)).expect("valid MCP result")
}

#[test]
fn native_mcp_param_without_discovery_normalizes_to_no_functions() {
    let param = json(
        r#"{
            "server_label": "counter",
            "server_url": "http://127.0.0.1:8000/mcp"
        }"#,
    );

    let handler = McpHandler::spec_from_param(&param);

    assert!(handler.normalize(&param).is_empty());
}

#[test]
fn discovered_tool_normalizes_to_function_tool() {
    let handler = McpHandler::discovered_tool_spec_only();
    let config = json(&format!(
        r#"{{"_agentic_discovered_tools": [{}]}}"#,
        discovered_param().to_json().to_text()
    ));

    let normalized = handler.normalize(&config);

    assert_eq!(normalized.len(), 1);
    assert_eq!(normalized[0].name, "mcp__counter__increment");
    assert_eq!(normalized[0].parameters.as_ref().unwrap().get("properties"), Some(&json("{}")));
}

#[test]
fn internal_tool_names_include_server_and_tool_identity() {
    let mut used = Table::new();

    let name = internal_mcp_tool_name("counter server", "increment/value", &mut used);

    assert_eq!(name.as_deref(), Some("mcp__counter_server__increment_value"));
}

#[test]
fn discovered_tool_output_uses_public_mcp_identity() {
    let call = call("mcp__counter__increment", "{}");
    let output = ToolOutput { call_id: call.call_id.clone(), output: "1".to_owned() };
    let config = discovered_param().to_json();

    let OutputItem::McpToolCall(item) =
        output_item(&call, &output, GatewayCallStatus::Completed, &config)
    else {
        panic!("expected mcp_tool_call");
    };

    assert_eq!(item.server, "counter");
    assert_eq!(item.tool, "increment");
    assert_eq!(item.arguments, json("{}"));
    assert_eq!(item.result, Some(json("1")));
}

#[test]
fn successful_mcp_result_exposes_text_instead_of_protocol_envelope() {
    let result = call_result(r#"{"content": [{"type": "text", "text": "42"}], "isError": false}"#);

    assert_eq!(mcp_tool_result_text(&result).unwrap(), "42");
}

#[test]
fn mcp_error_result_becomes_execution_failure() {
    let result = call_result(
        r#"{"content": [{"type": "text", "text": "missing field `b`"}], "isError": true}"#,
    );

    let error = mcp_tool_result_text(&result).unwrap_err();
    assert!(matches!(error, ToolError::Execution(message) if message == "missing field `b`"));
}

#[test]
fn failed_mcp_output_uses_execution_error_text() {
    let call = call("mcp__counter__sum", r#"{"a":40}"#);
    let output = ToolOutput {
        call_id: call.call_id.clone(),
        output: r#"{"error":"missing field `b`"}"#.to_owned(),
    };
    let mut param = discovered_param();
    param.tool_name = "sum".to_owned();
    let config = param.to_json();

    let item = output_item(&call, &output, GatewayCallStatus::Failed, &config);
    let json = item.to_json();

    assert_eq!(json.get_str("status"), Some("failed"));
    assert!(json.get("result").map_or(true, Json::is_null));
    assert_eq!(json.get_str("error"), Some("missing field `b`"));
}

#[test]
fn names_of_different_tools_differ_and_fit() {
    let mut used = Table::new();
    let first = internal_mcp_tool_name("a b", "tool", &mut used).unwrap();
    let second = internal_mcp_tool_name("a_b", "tool", &mut used).unwrap();
    assert_ne!(first, second);
    assert_eq!(internal_mcp_tool_name("a b", "tool", &mut used).unwrap(), first);

    let long = "x".repeat(200);
    let name = internal_mcp_tool_name(&long, &long, &mut used).unwrap();
    assert!(name.len() <= MAX_INTERNAL_TOOL_NAME_LEN);
    assert_eq!(sanitize_internal_tool_name("a.b/c d-e_f"), "a_b_c_d-e_f");
}

#[test]
fn a_call_is_planned_for_the_server_of_its_tool() {
    let handler = McpHandler::tool_call("client-1".to_owned());
    let plan = handler.plan(&discovered_param().to_json(), "", r#"{"by":2}"#).unwrap();
    assert_eq!(plan.client, "client-1");
    assert_eq!(plan.server_label, "counter");
    assert_eq!(plan.tool_name, "increment");
    assert_eq!(plan.arguments, Some(json(r#"{"by":2}"#)));

    assert_eq!(
        handler.plan(&json("{}"), "missing field `server_label`", "{}").unwrap_err(),
        ToolError::Config("invalid MCP tool config: missing field `server_label`".to_owned())
    );
    assert!(McpHandler::discovered_tool_spec_only()
        .plan(&discovered_param().to_json(), "", "{}")
        .is_err());
}

#[test]
fn tools_are_found_by_internal_name_and_server() {
    let mut map = McpToolMap::new();
    assert!(!map.contains_server_label("counter"));
    map.record(
        "mcp__counter__increment".to_owned(),
        McpToolRef { server_label: "counter".to_owned(), tool_name: "increment".to_owned() },
    );
    assert!(map.contains_server_label("counter"));
    assert_eq!(map.tool_ref("mcp__counter__increment").unwrap().tool_name, "increment");
    assert!(map.tool_ref("increment").is_none());
}

#[test]
fn an_internal_name_comes_again_and_has_only_name_characters() {
    let mut used = Table::new();
    let server = "caf\u{e9} server";
    let tool = "a tool with a name that is far too long to fit into sixty-four characters";
    let first = internal_mcp_tool_name(server, tool, &mut used).unwrap();
    assert_eq!(internal_mcp_tool_name(server, tool, &mut used).as_ref(), Some(&first));
    assert_eq!(used.len(), 1);
    assert!(first.len() <= 64);
    assert!(first.chars().all(|c| c.is_ascii_alphanumeric() || c == '_' || c == '-'));
}

#[test]
fn content_without_texts_is_given_as_it_was_written() {
    let mut result = call_result(
        r#"{"content": [{"type": "image", "data": "aGk=", "mimeType": "image/png"}]}"#,
    );
    assert_eq!(
        mcp_tool_result_text(&result).unwrap(),
        r#"[{"data":"aGk=","mimeType":"image/png","type":"image"}]"#
    );
    let written = r#"[{"type":"image","data":"aGk=","mimeType":"image/png"}]"#;
    result.content_text = written.to_owned();
    assert_eq!(mcp_tool_result_text(&result).unwrap(), written);
    result.structured_content = Some(json(r#"{"b": 1, "a": 2}"#));
    assert_eq!(mcp_tool_result_text(&result).unwrap(), r#"{"a":2,"b":1}"#);
}
