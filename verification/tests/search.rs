//! Searches for tools: their public ids, and what the model sees of them.
use agentic_core::items::{InputItem, ResponsesInput};
use agentic_core::json::Json;
use agentic_core::payload::RequestPayload;
use agentic_core::search::{public_item_id, public_output_item, ToolSearchState};
use agentic_core::tools::{McpDiscoveredToolParam, McpTool, ResponsesTool, ToolSearchStatus};
use agentic_core::wire::{FromJson, ToJson};

fn json(text: &str) -> Json {
    Json::parse(text).expect("valid JSON")
}

fn request(text: &str) -> RequestPayload {
    RequestPayload::from_json(&json(text)).expect("valid tool-search request")
}

#[test]
fn public_tool_search_item_ids_are_stable_and_domain_separated() {
    assert_eq!(public_item_id("tsc_existing"), "tsc_existing");
    assert_eq!(public_item_id("fc_search_1"), "tsc_search_1");
    let first = public_item_id("provider-item-1");
    assert_eq!(first, public_item_id("provider-item-1"));
    assert!(first.starts_with("tsc_"));
    assert_ne!(first, agentic_core::custom::public_item_id("provider-item-1"));
}

#[test]
fn internal_discovered_mcp_details_never_enter_model_visible_pair_projection() {
    let mut request = request(
        r#"{
            "model": "test",
            "store": false,
            "parallel_tool_calls": false,
            "tools": [{
                "type": "tool_search",
                "execution": "client",
                "description": "Find a tool",
                "parameters": {"type": "object"}
            }],
            "input": [
                {
                    "type": "tool_search_call",
                    "id": "tsc_1",
                    "call_id": "call_search_1",
                    "arguments": {"query": "weather"}
                },
                {
                    "type": "tool_search_output",
                    "call_id": "call_search_1",
                    "tools": [{
                        "type": "mcp",
                        "server_label": "weather",
                        "server_description": "Weather tools",
                        "server_url": "https://mcp.example.test/mcp",
                        "defer_loading": true
                    }]
                }
            ]
        }"#,
    );
    let ResponsesInput::Items(items) = &mut request.input else {
        panic!("test request uses item history")
    };
    let InputItem::ToolSearchOutput(output) = &mut items[1] else {
        panic!("test request contains a search output")
    };
    let ResponsesTool::Mcp(mcp) = &mut output.tools[0] else {
        panic!("test output returns MCP")
    };
    mcp.discovered_tools.push(McpDiscoveredToolParam {
        server_label: "weather".to_owned(),
        tool_name: "discovered-tool-sentinel".to_owned(),
        internal_name: "internal-name-sentinel".to_owned(),
        tool: McpTool::from_json(&json(
            r#"{
                "name": "discovered-tool-sentinel",
                "description": "discovered-description-sentinel",
                "inputSchema": {
                    "type": "object",
                    "properties": {"discovered-schema-sentinel": {"type": "string"}}
                }
            }"#,
        ))
        .expect("valid discovered tool"),
    });

    let state = ToolSearchState::build(&request).expect("internal execution state remains valid");
    let private = state
        .private_inference_request(&request)
        .expect("active state materializes a private inference request");
    let private_input = private.input.to_json().to_text();
    for forbidden in [
        "_agentic_discovered_tools",
        "discovered-tool-sentinel",
        "internal-name-sentinel",
        "discovered-description-sentinel",
        "discovered-schema-sentinel",
    ] {
        assert!(!private_input.contains(forbidden), "private input leaked {forbidden}");
    }
}

#[test]
fn a_search_needs_an_id_and_arguments_that_are_an_object() {
    let item = public_output_item("fc_1", "call_1", r#"{"query":"weather"}"#).unwrap();
    assert_eq!(item.id, "tsc_1");
    assert_eq!(item.call_id, "call_1");
    assert_eq!(item.status, ToolSearchStatus::Completed);
    assert_eq!(Json::Object(item.arguments), json(r#"{"query":"weather"}"#));
    assert!(public_output_item("fc_1", " ", "{}").is_err());
    assert!(public_output_item("fc_1", "call_1", "[]").is_err());
    assert!(public_output_item("fc_1", "call_1", "not json").is_err());
}
