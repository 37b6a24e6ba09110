//! Declarations of MCP servers and of functions that only look like theirs.
use agentic_core::executors::GatewayExecutors;
use agentic_core::json::Json;
use agentic_core::registry::ToolRegistry;
use agentic_core::tools::{ResponsesTool, ToolType};
use agentic_core::wire::{FromJson, ToJson};

fn tool(text: &str) -> ResponsesTool {
    ResponsesTool::from_json(&Json::parse(text).expect("valid JSON")).expect("a declaration")
}

fn native_mcp_declaration() -> ResponsesTool {
    tool(
        r#"{
            "type": "mcp",
            "server_label": "counter",
            "server_url": "http://127.0.0.1:8000/mcp",
            "allowed_tools": ["increment"],
            "require_approval": "never"
        }"#,
    )
}

#[test]
fn native_mcp_declaration_uses_server_identity_without_a_tool_name() {
    let ResponsesTool::Mcp(param) = native_mcp_declaration() else {
        panic!("expected MCP declaration");
    };

    assert_eq!(param.server_label, "counter");
    assert_eq!(param.server_url.as_deref(), Some("http://127.0.0.1:8000/mcp"));
    assert_eq!(param.allowed_tools.as_deref(), Some(["increment".to_owned()].as_slice()));
    assert_eq!(param.require_approval.as_deref(), Some("never"));
}

#[test]
fn native_mcp_declaration_ignores_a_client_supplied_tool_name() {
    let tool = tool(
        r#"{
            "type": "mcp",
            "name": "increment",
            "server_label": "counter",
            "server_url": "http://127.0.0.1:8000/mcp"
        }"#,
    );

    let serialized = tool.to_json();
    assert_eq!(serialized.get_str("server_label"), Some("counter"));
    assert!(serialized.get("name").is_none());
}

#[test]
fn read_mcp_resource_function_is_client_owned() {
    let mut tools = vec![tool(
        r#"{
            "type": "function",
            "name": "read_mcp_resource",
            "description": "A client-owned function with no gateway MCP semantics",
            "parameters": {"type": "object"},
            "metadata": {
                "server_label": "repo",
                "server_url": "http://127.0.0.1:8000/mcp"
            }
        }"#,
    )];
    let mut executors = GatewayExecutors::default();

    let registry =
        ToolRegistry::build_with_handlers(&mut tools, &mut executors).expect("function registry");
    let entry = registry.lookup("read_mcp_resource").expect("function registry entry");

    assert_eq!(entry.tool_type, ToolType::Function);
    assert!(entry.handler.is_none());
}
