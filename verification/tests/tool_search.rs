//! Tools that a history loaded by searching, and searches that a model made as plain calls.
use agentic_core::items::{FunctionToolCall, MessageStatus};
use agentic_core::json::Json;
use agentic_core::tool_search::{
    loaded_function_names, loaded_function_tools, loaded_namespace_members, restore_loaded_namespace_output_items,
    restore_loaded_namespace_response_value, restore_output_items, restore_response_value,
    RestorableItem, SearchHistory, SearchHistoryItem, TOOL_SEARCH_NAME,
};
use agentic_core::tools::ToolSearchStatus;
use agentic_core::wire::{FromJson, ToJson};

fn json(text: &str) -> Json {
    Json::parse(text).expect("valid JSON")
}

fn history(text: &str) -> SearchHistory {
    SearchHistory::from_json(&json(text)).expect("a history")
}

fn at<'a>(value: &'a Json, path: &[&str]) -> Option<&'a Json> {
    let mut here = value;
    for key in path {
        here = match here {
            Json::Array(items) => items.get(key.parse::<usize>().ok()?)?,
            other => other.get(key)?,
        };
    }
    Some(here)
}

#[test]
fn restores_final_function_call_fallback() {
    let output = vec![RestorableItem::FunctionCall(FunctionToolCall {
        id: "fc_search".to_owned(),
        call_id: "call_search".to_owned(),
        name: TOOL_SEARCH_NAME.to_owned(),
        namespace: None,
        arguments: r#"{"query":"calendar","limit":2}"#.to_owned(),
        status: MessageStatus::Completed,
    })];

    let output = restore_output_items(&output, true);

    let RestorableItem::SearchCall(call) = &output[0] else {
        panic!("expected restored tool_search_call");
    };
    assert_eq!(call.call_id.as_deref(), Some("call_search"));
    assert_eq!(call.status, Some(ToolSearchStatus::Completed));
    assert_eq!(call.arguments.get_str("query"), Some("calendar"));
    assert!(!call.extra.contains_key("id"));
}

#[test]
fn restores_streamed_output_item_and_preserves_unrelated_function() {
    let mut event = json(r#"{
        "type": "response.output_item.done",
        "item": {
            "type": "function_call",
            "id": "fc_search",
            "call_id": "call_search",
            "name": "tool_search",
            "status": "completed",
            "arguments": "{\"query\":\"calendar\"}"
        }
    }"#);
    assert!(restore_response_value(&mut event, true));
    assert_eq!(at(&event, &["item", "type"]), Some(&Json::text("tool_search_call")));
    assert_eq!(at(&event, &["item", "execution"]), Some(&Json::text("client")));
    assert_eq!(at(&event, &["item", "arguments", "query"]), Some(&Json::text("calendar")));
    assert!(at(&event, &["item", "name"]).is_none());

    let mut unrelated = json(r#"{
        "type": "function_call",
        "call_id": "call_other",
        "name": "other",
        "arguments": "{}"
    }"#);
    assert!(!restore_response_value(&mut unrelated, true));
    assert_eq!(at(&unrelated, &["type"]), Some(&Json::text("function_call")));
}

#[test]
fn restores_namespace_for_a_dynamically_loaded_member() {
    let input = history(r#"[
        {
            "type": "tool_search_call",
            "execution": "client",
            "call_id": "call_search",
            "status": "completed",
            "arguments": {"query": "echo_text"}
        },
        {
            "type": "tool_search_output",
            "execution": "client",
            "call_id": "call_search",
            "status": "completed",
            "tools": [{
                "type": "namespace",
                "name": "mcp__fixture",
                "description": "Fixture tools",
                "tools": [{
                    "type": "function",
                    "name": "echo_text",
                    "defer_loading": true,
                    "parameters": {"type": "object"}
                }]
            }]
        },
        {
            "type": "tool_search_output",
            "execution": "server",
            "call_id": "call_server_search",
            "status": "completed",
            "tools": [{
                "type": "namespace",
                "name": "server",
                "tools": [{"type": "function", "name": "server_only"}]
            }]
        }
    ]"#);
    let namespaces = loaded_namespace_members(&input);
    assert_eq!(namespaces.get(&"echo_text".to_owned()).map(String::as_str), Some("mcp__fixture"));
    assert!(!namespaces.contains_key(&"server_only".to_owned()));

    let mut event = json(r#"{
        "type": "response.output_item.done",
        "item": {
            "type": "function_call",
            "call_id": "call_echo",
            "name": "echo_text",
            "arguments": "{\"text\":\"hello\"}"
        }
    }"#);
    assert!(restore_loaded_namespace_response_value(&mut event, &namespaces));
    assert_eq!(at(&event, &["item", "namespace"]), Some(&Json::text("mcp__fixture")));
}

#[test]
fn promotes_only_uniquely_namespaced_loaded_functions() {
    let input = history(r#"[
        {
            "type": "tool_search_call",
            "execution": "client",
            "call_id": "call_search",
            "status": "completed",
            "arguments": {"query": "fixture tools"}
        },
        {
            "type": "tool_search_output",
            "execution": "client",
            "call_id": "call_search",
            "status": "completed",
            "tools": [
                {
                    "type": "namespace",
                    "name": "mcp__one",
                    "tools": [
                        {
                            "type": "function",
                            "name": "echo_text",
                            "description": "Echo text",
                            "parameters": {"type": "object"},
                            "strict": false,
                            "defer_loading": true
                        },
                        {"type": "function", "name": "ambiguous"}
                    ]
                },
                {
                    "type": "namespace",
                    "name": "mcp__two",
                    "tools": [{"type": "function", "name": "ambiguous"}]
                }
            ]
        }
    ]"#);

    let loaded = loaded_function_tools(&input);

    assert_eq!(loaded.len(), 1);
    assert_eq!(loaded[0].name, "echo_text");
    assert_eq!(loaded[0].description.as_deref(), Some("Echo text"));
    assert_eq!(
        loaded[0].parameters.as_ref().and_then(|value| value.get("type")),
        Some(&Json::text("object"))
    );
    assert_eq!(loaded[0].strict, Some(false));
    assert_eq!(loaded[0].to_json().get("defer_loading"), None);
}

#[test]
fn promotes_top_level_functions_and_unique_namespace_members() {
    let input = history(r#"[
        {
            "type": "tool_search_call",
            "execution": "client",
            "call_id": "call_search",
            "status": "completed",
            "arguments": {"query": "tools"}
        },
        {
            "type": "tool_search_output",
            "execution": "client",
            "call_id": "call_search",
            "status": "completed",
            "tools": [
                {
                    "type": "function",
                    "name": "direct_lookup",
                    "description": "A direct function.",
                    "parameters": {"type": "object"},
                    "defer_loading": true
                },
                {
                    "type": "namespace",
                    "name": "mcp__fixture",
                    "tools": [{
                        "type": "function",
                        "name": "namespaced_lookup",
                        "description": "A namespace member.",
                        "parameters": {"type": "object"},
                        "defer_loading": true
                    }]
                }
            ]
        }
    ]"#);

    let loaded = loaded_function_tools(&input);
    assert_eq!(
        loaded.iter().map(|tool| tool.name.as_str()).collect::<Vec<_>>(),
        ["direct_lookup", "namespaced_lookup"]
    );
    let namespaces = loaded_namespace_members(&input);
    assert!(!namespaces.contains_key(&"direct_lookup".to_owned()));
    assert_eq!(
        namespaces.get(&"namespaced_lookup".to_owned()).map(String::as_str),
        Some("mcp__fixture")
    );
}

#[test]
fn promotion_requires_a_prior_matching_completed_client_call() {
    let input = history(r#"[
        {
            "type": "tool_search_output",
            "execution": "client",
            "call_id": null,
            "status": "completed",
            "tools": [{"type": "function", "name": "null_id"}]
        },
        {
            "type": "tool_search_output",
            "execution": "client",
            "call_id": "unmatched",
            "status": "completed",
            "tools": [{"type": "function", "name": "unmatched"}]
        },
        {
            "type": "tool_search_call",
            "execution": "server",
            "call_id": "server",
            "status": "completed",
            "arguments": {}
        },
        {
            "type": "tool_search_output",
            "execution": "server",
            "call_id": "server",
            "status": "completed",
            "tools": [{"type": "function", "name": "server"}]
        },
        {
            "type": "tool_search_call",
            "execution": "client",
            "call_id": "in_progress",
            "status": "in_progress",
            "arguments": {}
        },
        {
            "type": "tool_search_output",
            "execution": "client",
            "call_id": "in_progress",
            "status": "completed",
            "tools": [{"type": "function", "name": "in_progress"}]
        },
        {
            "type": "tool_search_call",
            "execution": "client",
            "call_id": "incomplete",
            "status": "incomplete",
            "arguments": {}
        },
        {
            "type": "tool_search_output",
            "execution": "client",
            "call_id": "incomplete",
            "status": "incomplete",
            "tools": [{"type": "function", "name": "incomplete"}]
        },
        {
            "type": "tool_search_call",
            "call_id": "absent_fields",
            "arguments": {}
        },
        {
            "type": "tool_search_output",
            "call_id": "absent_fields",
            "tools": [{"type": "function", "name": "absent_fields"}]
        },
        {
            "type": "tool_search_call",
            "execution": "client",
            "call_id": "valid",
            "status": "completed",
            "arguments": {}
        },
        {
            "type": "tool_search_output",
            "execution": "client",
            "call_id": "valid",
            "status": "completed",
            "tools": [{"type": "function", "name": "valid"}]
        }
    ]"#);

    let loaded = loaded_function_tools(&input);
    assert_eq!(
        loaded.iter().map(|tool| tool.name.as_str()).collect::<Vec<_>>(),
        ["valid"]
    );
}

#[test]
fn first_valid_output_for_a_call_id_wins_deterministically() {
    let input = history(r#"[
        {
            "type": "tool_search_call",
            "execution": "client",
            "call_id": "call_search",
            "status": "completed",
            "arguments": {}
        },
        {
            "type": "tool_search_output",
            "execution": "client",
            "call_id": "call_search",
            "status": "completed",
            "tools": [{"type": "function", "name": "first"}]
        },
        {
            "type": "tool_search_output",
            "execution": "client",
            "call_id": "call_search",
            "status": "completed",
            "tools": [{"type": "function", "name": "conflicting_second"}]
        }
    ]"#);

    let loaded = loaded_function_tools(&input);
    assert_eq!(
        loaded.iter().map(|tool| tool.name.as_str()).collect::<Vec<_>>(),
        ["first"]
    );
}

#[test]
fn direct_function_name_wins_over_a_namespaced_member_collision() {
    let input = history(r#"[
        {
            "type": "tool_search_call",
            "execution": "client",
            "call_id": "call_search",
            "status": "completed",
            "arguments": {}
        },
        {
            "type": "tool_search_output",
            "execution": "client",
            "call_id": "call_search",
            "status": "completed",
            "tools": [
                {"type": "namespace", "name": "ns", "tools": [{"type": "function", "name": "same"}]},
                {"type": "function", "name": "same", "description": "direct"}
            ]
        }
    ]"#);

    let loaded = loaded_function_tools(&input);
    assert_eq!(loaded.len(), 1);
    assert_eq!(loaded[0].name, "same");
    assert_eq!(loaded[0].description.as_deref(), Some("direct"));
    assert!(!loaded_namespace_members(&input).contains_key(&"same".to_owned()));
}

#[test]
fn namespaced_tool_search_function_is_not_rewritten_as_search_fallback() {
    let output = vec![RestorableItem::FunctionCall(FunctionToolCall {
        id: "fc_search".to_owned(),
        call_id: "call_search".to_owned(),
        name: TOOL_SEARCH_NAME.to_owned(),
        namespace: Some("legitimate_namespace".to_owned()),
        arguments: "{}".to_owned(),
        status: MessageStatus::Completed,
    })];

    let output = restore_output_items(&output, true);
    assert!(matches!(output[0], RestorableItem::FunctionCall(_)));
}

#[test]
fn tool_search_input_items_preserve_omitted_execution_and_status() {
    let expected = json(r#"[
        {
            "type": "tool_search_call",
            "call_id": "call_search",
            "arguments": {"query": "tools"}
        },
        {
            "type": "tool_search_output",
            "call_id": "call_search",
            "tools": []
        }
    ]"#);
    let input = SearchHistory::from_json(&expected).expect("a history");
    let SearchHistory::Items(items) = &input else {
        panic!("expected input items");
    };
    let SearchHistoryItem::Call(call) = &items[0] else {
        panic!("expected tool-search call");
    };
    assert_eq!(call.execution, None);
    assert_eq!(call.status, None);
    let SearchHistoryItem::Output(output) = &items[1] else {
        panic!("expected tool-search output");
    };
    assert_eq!(output.execution, None);
    assert_eq!(output.status, None);
    assert_eq!(input.to_json(), expected);
}

#[test]
fn calls_of_loaded_members_get_their_namespace() {
    let call = |name: &str, namespace: Option<&str>| {
        RestorableItem::FunctionCall(FunctionToolCall {
            id: "fc_1".to_owned(),
            call_id: "call_1".to_owned(),
            name: name.to_owned(),
            namespace: namespace.map(str::to_owned),
            arguments: "{}".to_owned(),
            status: MessageStatus::Completed,
        })
    };
    let mut namespaces = agentic_core::tables::Table::new();
    namespaces.insert("echo".to_owned(), "fixture".to_owned());
    let output = vec![call("echo", None), call("echo", Some("own")), call("other", None)];
    let restored = restore_loaded_namespace_output_items(&output, &namespaces);
    let named: Vec<Option<String>> = restored
        .iter()
        .map(|item| match item {
            RestorableItem::FunctionCall(call) => call.namespace.clone(),
            other => panic!("expected a call, got {other:?}"),
        })
        .collect();
    assert_eq!(named, [Some("fixture".to_owned()), Some("own".to_owned()), None]);
}

#[test]
fn nothing_is_restored_where_no_search_is_declared() {
    let mut event = json(
        r#"{"type": "function_call", "call_id": "c", "name": "tool_search", "arguments": "{}"}"#,
    );
    let before = event.clone();
    assert!(!restore_response_value(&mut event, false));
    assert_eq!(event, before);
}

#[test]
fn what_was_restored_once_stays() {
    let mut event = json(r#"{
        "type": "response.completed",
        "response": {"output": [
            {"type": "function_call", "id": "fc_1", "call_id": "call_1", "name": "tool_search", "arguments": "{}"},
            {"type": "function_call", "id": "fc_2", "call_id": "", "name": "tool_search", "arguments": "{}"}
        ]}
    }"#);
    assert!(restore_response_value(&mut event, true));
    let once = event.clone();
    assert!(!restore_response_value(&mut event, true));
    assert_eq!(event, once);
    assert_eq!(
        at(&event, &["response", "output", "1", "type"]),
        Some(&Json::text("function_call"))
    );
}

#[test]
fn loaded_functions_have_the_loaded_names() {
    let history = history(r#"[
        {"type": "tool_search_call", "call_id": "call_1", "execution": "client", "status": "completed",
         "arguments": {}},
        {"type": "tool_search_output", "call_id": "call_1", "execution": "client", "status": "completed",
         "tools": [
            {"type": "function", "name": "first"},
            {"type": "namespace", "name": "crm", "tools": [
                {"type": "function", "name": "first"}, {"type": "function", "name": "second"}]}
         ]}
    ]"#);
    let functions = loaded_function_tools(&history);
    let names = loaded_function_names(&history);
    assert_eq!(functions.len(), names.len());
    for function in &functions {
        assert!(names.contains(&function.name));
    }
}
