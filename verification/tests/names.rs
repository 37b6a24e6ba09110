//! Names that the model sees, and the calls that come back under them.
use agentic_core::codex::CodexNamespaceHandler;
use agentic_core::error::ToolError;
use agentic_core::items::{FunctionToolCall, MessageStatus, OutputItem};
use agentic_core::json::Json;
use agentic_core::names::{
    model_visible_namespace_member_name, validate_model_visible_declared_names,
};
use agentic_core::normalize::tool_search_function_tool;
use agentic_core::tools::{ResponsesTool, ToolChoice, ToolType};
use agentic_core::wire::FromJson;

fn tools_of(text: &str) -> Vec<ResponsesTool> {
    match Json::parse(text).expect("valid JSON") {
        Json::Array(items) => items
            .iter()
            .map(|item| ResponsesTool::from_json(item).expect("a declaration"))
            .collect(),
        other => panic!("expected a list, got {other:?}"),
    }
}

fn call(name: &str) -> OutputItem {
    OutputItem::FunctionCall(FunctionToolCall {
        id: "fc_1".to_owned(),
        call_id: "call_1".to_owned(),
        name: name.to_owned(),
        namespace: None,
        arguments: "{}".to_owned(),
        status: MessageStatus::Completed,
    })
}

#[test]
fn member_names_fit_whatever_their_namespace() {
    assert_eq!(model_visible_namespace_member_name("mcp__shell", "run"), "agentic_ns__mcp__shell__run");
    let long = model_visible_namespace_member_name(&"n".repeat(80), "run");
    assert!(long.len() <= 64);
    assert!(long.starts_with("agentic_ns__"));
    assert_ne!(long, model_visible_namespace_member_name(&"n".repeat(81), "run"));
}

#[test]
fn declared_names_must_differ() {
    let fine = tools_of(
        r#"[{"type": "function", "name": "a"}, {"type": "custom", "name": "b"},
            {"type": "web_search_preview"},
            {"type": "namespace", "name": "ns", "tools": [{"type": "function", "name": "a"}]}]"#,
    );
    assert!(validate_model_visible_declared_names(&fine).is_ok());
    for clash in [
        r#"[{"type": "function", "name": "a"}, {"type": "custom", "name": "a"}]"#,
        r#"[{"type": "function", "name": "web_search"}, {"type": "web_search_preview"}]"#,
        r#"[{"type": "code_interpreter"}, {"type": "code_interpreter"}]"#,
        r#"[{"type": "namespace", "name": "ns", "tools": [
            {"type": "function", "name": "a"}, {"type": "function", "name": "a"}]}]"#,
        r#"[{"type": "function", "name": "agentic_ns__ns__a"},
            {"type": "namespace", "name": "ns", "tools": [{"type": "function", "name": "a"}]}]"#,
    ] {
        assert!(matches!(
            validate_model_visible_declared_names(&tools_of(clash)),
            Err(ToolError::Config(_))
        ));
    }
}

#[test]
fn calls_of_members_come_back_under_their_own_names() {
    let tools = tools_of(
        r#"[{"type": "namespace", "name": "ns", "tools": [{"type": "function", "name": "a"}]}]"#,
    );
    let map = CodexNamespaceHandler.build_namespace_map(Some(&tools)).unwrap();
    let output = vec![call("agentic_ns__ns__a"), call("other")];
    let restored = CodexNamespaceHandler.restore_output_items(&output, map.as_ref());
    let OutputItem::FunctionCall(member) = &restored[0] else {
        panic!("expected a call");
    };
    assert_eq!(member.name, "a");
    assert_eq!(member.namespace.as_deref(), Some("ns"));
    assert_eq!(restored[1], output[1]);

    let choice =
        Some(ToolChoice::Function { namespace: Some("ns".to_owned()), name: "a".to_owned() });
    assert_eq!(
        CodexNamespaceHandler.resolve_tool_choice(map.as_ref(), &choice),
        ToolChoice::Function { namespace: None, name: "agentic_ns__ns__a".to_owned() }
    );
    assert_eq!(CodexNamespaceHandler.resolve_tool_choice(map.as_ref(), &None), ToolChoice::Auto);
}

#[test]
fn declarations_become_functions() {
    let tools = tools_of(
        r#"[{"type": "function", "name": "a", "description": "A", "strict": true},
            {"type": "file_search", "vector_store_ids": []},
            {"type": "future"},
            {"type": "tool_search", "execution": "client", "description": "Find",
             "parameters": {"type": "object"}}]"#,
    );
    let functions = tools[0].to_function_tools();
    assert_eq!(functions.len(), 1);
    assert_eq!(functions[0].name, "a");
    assert_eq!(functions[0].strict, Some(true));
    assert!(tools[1].to_function_tools().is_empty());
    assert!(tools[2].to_function_tools().is_empty());
    let ResponsesTool::ToolSearch(search) = &tools[3] else {
        panic!("expected a search");
    };
    let function = tool_search_function_tool(search);
    assert_eq!(function.name, "tool_search");
    assert_eq!(function.description.as_deref(), Some("Find"));
    assert_eq!(tools[0].tool_type(), Some(ToolType::Function));
    assert_eq!(tools[1].tool_type(), Some(ToolType::FileSearch));
    assert_eq!(tools[2].tool_type(), None);
    assert!(tools[1].is_gateway_owned());
    assert!(!tools[0].is_gateway_owned());
}
