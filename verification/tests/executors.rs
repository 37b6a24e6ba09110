//! Which tools of an MCP server a request may use.
use agentic_core::executors::{
    validate_mcp_execution_options, GatewayExecutorRegistration, GatewayExecutors, McpConnection,
};
use agentic_core::json::Json;
use agentic_core::mcp::{McpDiscoveredHandler, McpHandler};
use agentic_core::tools::{McpDiscoveredToolParam, McpTool, McpToolParam};
use agentic_core::wire::FromJson;
use agentic_core::wire_tools::read_mcp_param;

fn json(text: &str) -> Json {
    Json::parse(text).expect("valid JSON")
}

fn mcp_param(text: &str) -> McpToolParam {
    read_mcp_param(json(text).as_object().expect("an object")).expect("MCP declaration")
}

fn listed_tool(name: &str) -> McpTool {
    McpTool::from_json(&json(&format!(
        r#"{{"name": "{name}", "inputSchema": {{"type": "object"}}}}"#
    )))
    .expect("MCP tool")
}

fn discovered_handler(tool_name: &str) -> McpDiscoveredHandler {
    McpDiscoveredHandler {
        param: McpDiscoveredToolParam {
            server_label: "counter".to_owned(),
            tool_name: tool_name.to_owned(),
            internal_name: format!("mcp__counter__{tool_name}"),
            tool: listed_tool(tool_name),
        },
        handler: McpHandler::discovered_tool_spec_only(),
    }
}

#[test]
fn mcp_execution_allows_explicit_never_approval_policy() {
    let param = mcp_param(
        r#"{
            "server_label": "counter",
            "server_url": "http://localhost:8000/mcp",
            "require_approval": "never"
        }"#,
    );

    validate_mcp_execution_options(&param).unwrap();
}

#[test]
fn mcp_execution_rejects_omitted_approval_policy() {
    let param = mcp_param(
        r#"{
            "server_label": "counter",
            "server_url": "http://localhost:8000/mcp"
        }"#,
    );

    let error = validate_mcp_execution_options(&param).unwrap_err();
    assert!(error.message().contains("must be explicitly set to 'never'"));
}

#[test]
fn mcp_execution_rejects_unsupported_approval_policy() {
    let param = mcp_param(
        r#"{
            "server_label": "counter",
            "server_url": "http://localhost:8000/mcp",
            "require_approval": "always"
        }"#,
    );

    let error = validate_mcp_execution_options(&param).unwrap_err();
    assert!(error.message().contains("approval gating is not yet supported"));
}

#[test]
fn mcp_execution_rejects_connector_id() {
    let param = mcp_param(
        r#"{
            "server_label": "counter",
            "connector_id": "connector_dropbox"
        }"#,
    );

    let error = validate_mcp_execution_options(&param).unwrap_err();
    assert!(error.message().contains("connector_id is not supported"));
}

#[test]
fn cached_mcp_server_tools_apply_request_allowed_tools_with_fresh_output_id() {
    let mut executors = GatewayExecutors::default();
    executors.insert(GatewayExecutorRegistration::Mcp {
        server_label: "counter".to_owned(),
        handlers: vec![discovered_handler("read"), discovered_handler("delete")],
    });
    let param = mcp_param(
        r#"{
            "server_label": "counter",
            "allowed_tools": ["read"],
            "require_approval": "never"
        }"#,
    );

    let first = executors.mcp_server_tools(&param).unwrap();
    let first_output_id = first.list_tools_item.id.clone();
    let second = executors.mcp_server_tools(&param).unwrap();

    assert_eq!(first.discovered_handlers.len(), 1);
    assert_eq!(first.discovered_handlers[0].param.tool_name, "read");
    assert_eq!(first.list_tools_item.tools.len(), 1);
    assert_eq!(first.list_tools_item.tools[0].name, "read");
    assert_ne!(first_output_id, second.list_tools_item.id);
}

#[test]
fn cached_mcp_handlers_reject_empty_final_allowed_set() {
    let mut executors = GatewayExecutors::default();
    executors.insert(GatewayExecutorRegistration::Mcp {
        server_label: "counter".to_owned(),
        handlers: vec![discovered_handler("delete")],
    });
    let param = mcp_param(
        r#"{
            "server_label": "counter",
            "allowed_tools": ["read"],
            "require_approval": "never"
        }"#,
    );

    let Err(error) = executors.mcp_server_tools(&param) else {
        panic!("expected empty allowed set to be rejected");
    };

    assert!(error.message().contains("empty final allowed tool set"));
}

#[test]
fn a_server_that_connected_is_asked_only_once() {
    let mut executors = GatewayExecutors::new();
    let param = mcp_param(
        r#"{
            "server_label": "counter",
            "server_url": "http://localhost:8000/mcp",
            "require_approval": "never"
        }"#,
    );
    assert_eq!(executors.server_to_connect(&param).as_deref(), Some("counter"));
    executors.record_connection(
        "counter",
        McpConnection::Listed {
            client: "client-1".to_owned(),
            tools: vec![listed_tool("read")],
        },
    );
    let set = executors.mcp_server_tools_with(&param, "fresh").unwrap();
    assert_eq!(set.discovered_handlers[0].param.internal_name, "mcp__counter__read");
    assert_eq!(set.discovered_handlers[0].handler.client.as_deref(), Some("client-1"));
    assert_eq!(executors.server_to_connect(&param), None);
}

#[test]
fn a_server_that_failed_gives_its_reason() {
    let mut executors = GatewayExecutors::new();
    executors.record_connection("counter", McpConnection::Failed { reason: "refused".to_owned() });
    let param = mcp_param(
        r#"{
            "server_label": "counter",
            "server_url": "http://localhost:8000/mcp",
            "require_approval": "never"
        }"#,
    );
    let error = executors.mcp_server_tools_with(&param, "fresh").unwrap_err();
    assert!(error.message().contains("failed to connect: refused"));
}

#[test]
fn a_summary_of_executors_tells_counts_only() {
    let executors = GatewayExecutors::new();
    assert_eq!(
        executors.summary(),
        "GatewayExecutors { mcp_server_handlers: 0, web_search: false }"
    );
}
