//! Items are read back as they were written, and wait in the order in which they came.
use agentic_core::events::SSEEventType;
use agentic_core::in_flight::{InFlight, InFlightEntry, InFlightItems};
use agentic_core::items::{
    CompactionItem, FunctionToolCall, McpCall, McpCallError, McpCallStatus, McpListTools,
    MessageStatus, OutputItem, OutputMessage, OutputTextContent, ReasoningOutput,
    ReasoningTextContent, ToolSearchCall, WebSearchCallStatus,
};
use agentic_core::json::{Json, JsonObject};
use agentic_core::tools::{McpTool, ToolSearchExecution, ToolSearchStatus};
use agentic_core::wire::{FromJson, ToJson};

#[test]
fn output_items_survive_writing_and_reading() {
    let call = FunctionToolCall {
        id: "fc_1".to_owned(),
        call_id: "call_1".to_owned(),
        name: "a".to_owned(),
        namespace: Some("ns".to_owned()),
        arguments: "{}".to_owned(),
        status: MessageStatus::Incomplete,
    };
    for item in [
        OutputItem::FunctionCall(call),
        OutputItem::Message(OutputMessage {
            id: "msg_1".to_owned(),
            role: "assistant".to_owned(),
            status: MessageStatus::Completed,
            content: vec![OutputTextContent { text: "hi".to_owned(), annotations: vec![] }],
        }),
        OutputItem::Reasoning(ReasoningOutput {
            id: "rs_1".to_owned(),
            summary: vec![Json::text("s")],
            content: vec![ReasoningTextContent { text: "t".to_owned() }],
            encrypted_content: None,
            status: Some(MessageStatus::InProgress),
        }),
        OutputItem::McpCall(McpCall {
            id: "mcp_1".to_owned(),
            server_label: "counter".to_owned(),
            name: "increment".to_owned(),
            arguments: "{}".to_owned(),
            status: Some(McpCallStatus::Failed),
            approval_request_id: None,
            output: None,
            error: Some(McpCallError::Message("boom".to_owned())),
        }),
        OutputItem::McpListTools(McpListTools {
            id: "mcpl_1".to_owned(),
            server_label: "counter".to_owned(),
            tools: vec![McpTool {
                name: "increment".to_owned(),
                description: None,
                input_schema: JsonObject::new(),
                annotations: Some(Json::Bool(true)),
            }],
            error: Some("e".to_owned()),
        }),
        OutputItem::ToolSearchCall(ToolSearchCall {
            id: "tsc_1".to_owned(),
            call_id: "call_1".to_owned(),
            execution: ToolSearchExecution::Server,
            arguments: JsonObject::new(),
            status: ToolSearchStatus::Incomplete,
        }),
        OutputItem::Compaction(CompactionItem {
            id: None,
            encrypted_content: "sealed".to_owned(),
        }),
    ] {
        let text = item.to_json().to_text();
        let read = OutputItem::from_json(&Json::parse(&text).unwrap());
        assert_eq!(read, Some(item), "{text}");
    }
}

#[test]
fn names_of_statuses_and_events_are_read_back() {
    assert_eq!(MessageStatus::from_text("incomplete"), Some(MessageStatus::Incomplete));
    assert_eq!(MessageStatus::from_text("other"), None);
    for status in [
        WebSearchCallStatus::InProgress,
        WebSearchCallStatus::Searching,
        WebSearchCallStatus::Completed,
        WebSearchCallStatus::Failed,
    ] {
        assert_eq!(WebSearchCallStatus::from_text(status.as_str()), Some(status));
    }
    for event in [
        SSEEventType::ResponseCreated,
        SSEEventType::ResponseInProgress,
        SSEEventType::ResponseFailed,
        SSEEventType::OutputItemDone,
        SSEEventType::OutputTextDone,
        SSEEventType::CustomToolCallInputDone,
    ] {
        assert_eq!(SSEEventType::from_name(event.as_str()), event);
    }
    assert_eq!(SSEEventType::from_name("response.done"), SSEEventType::ResponseCompleted);
    assert_eq!(SSEEventType::from_name("response.future"), SSEEventType::Other);
}

fn waiting(output_index: u32) -> InFlightEntry {
    InFlightEntry { output_index, item: InFlight::WebSearchCall { item: None } }
}

#[test]
fn waiting_items_keep_their_order() {
    let mut items = InFlightItems::new();
    items.insert("b".to_owned(), waiting(7));
    items.insert("a".to_owned(), waiting(3));
    items.insert("b".to_owned(), waiting(9));
    assert_eq!(items.len(), 2);
    assert_eq!(items.position("b"), Some(0));
    assert_eq!(items.position("c"), None);
    assert_eq!(items.get("b").unwrap().output_index, 9);
    assert_eq!(items.key_at(1), "a");
    let entries = items.take_all();
    assert_eq!(entries.iter().map(|e| e.output_index).collect::<Vec<_>>(), [9, 3]);
    assert!(items.is_empty());
}
