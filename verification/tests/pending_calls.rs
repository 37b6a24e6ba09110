//! Calls that a history leaves without an output.
use agentic_core::items::{
    CustomToolCall, CustomToolCallOutputMessage, FunctionToolResultMessage, InputFunctionToolCall,
    InputItem,
};
use agentic_core::json::Json;
use agentic_core::pending_calls::pending_calls;

fn function_call(call_id: &str) -> InputItem {
    InputItem::FunctionCall(InputFunctionToolCall {
        id: None,
        call_id: call_id.to_owned(),
        name: "get_weather".to_owned(),
        namespace: None,
        arguments: "{}".to_owned(),
        status: None,
    })
}

fn function_call_output(call_id: &str) -> InputItem {
    InputItem::FunctionCallOutput(FunctionToolResultMessage {
        call_id: call_id.to_owned(),
        output: String::new(),
    })
}

fn custom_tool_call(call_id: &str) -> InputItem {
    InputItem::CustomToolCall(CustomToolCall {
        id: String::new(),
        status: None,
        call_id: call_id.to_owned(),
        name: "freeform".to_owned(),
        input: String::new(),
    })
}

fn custom_tool_call_output(call_id: &str) -> InputItem {
    InputItem::CustomToolCallOutput(CustomToolCallOutputMessage {
        call_id: call_id.to_owned(),
        name: None,
        output: Json::text(""),
    })
}

#[test]
fn resolved_calls_are_not_pending() {
    let items = vec![function_call("call_1"), function_call_output("call_1")];
    assert!(pending_calls(&items).is_empty());
}

#[test]
fn unresolved_function_call_is_reported_in_order() {
    let items = vec![
        function_call("call_1"),
        function_call("call_2"),
        function_call_output("call_1"),
    ];
    let pending = pending_calls(&items);
    assert_eq!(pending.len(), 1);
    assert_eq!(pending[0].call_id, "call_2");
}

#[test]
fn unresolved_custom_tool_call_is_reported() {
    let items = vec![custom_tool_call("call_1")];
    let pending = pending_calls(&items);
    assert_eq!(pending.len(), 1);
    assert_eq!(pending[0].call_id, "call_1");
}

#[test]
fn custom_tool_call_output_resolves_custom_tool_call() {
    let items = vec![custom_tool_call("call_1"), custom_tool_call_output("call_1")];
    assert!(pending_calls(&items).is_empty());
}

#[test]
fn empty_items_have_no_pending_calls() {
    assert!(pending_calls(&vec![]).is_empty());
}
