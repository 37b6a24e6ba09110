//! Putting a response together from the events of a stream, or from a whole body.
use agentic_core::events::{EventFrame, EventPayload, SSEEventType, SSEItemType, WireEvent};
use agentic_core::accumulator::{unreadable_data, ResponseAccumulator};
use agentic_core::error::ExecutorError;
use agentic_core::in_flight::{InFlight, InFlightEntry};
use agentic_core::items::{
    McpCallError, McpCallStatus, MessageStatus, OutputItem, WebSearchCallStatus,
};
use agentic_core::json::{Json, JsonNumber, JsonObject};
use agentic_core::payload::{ResponseStatus, ResponseUsage};
use agentic_core::tables::{Keys, Table};
use agentic_core::tools::{ToolSearchStatus, ToolType};

fn json(text: &str) -> Json {
    Json::parse(text).expect("valid JSON")
}

fn fields(text: &str) -> JsonObject {
    json(text).as_object().expect("an object").clone()
}

fn search_types() -> Table<String, ToolType> {
    let mut types = Table::new();
    types.insert("tool_search".to_owned(), ToolType::ToolSearch);
    types
}

#[test]
fn test_accumulator_new() {
    let acc = ResponseAccumulator::new("resp_123".into(), Some("conv_456".into()));
    assert_eq!(acc.response_id, "resp_123");
    assert_eq!(acc.conversation_id, Some("conv_456".into()));
    assert_eq!(acc.status, ResponseStatus::InProgress);
}

#[test]
fn test_accumulator_mark_incomplete() {
    let mut acc = ResponseAccumulator::new("resp_123".into(), None);
    acc.mark_incomplete("Stream interrupted".to_owned());
    assert_eq!(acc.status, ResponseStatus::Incomplete);
    assert!(acc.incomplete_details.is_some());
}

#[test]
fn test_accumulator_preserves_streamed_failure_details() {
    let acc = ResponseAccumulator::from_sse_lines(
        &vec![r#"data: {"type":"response.failed","response":{"id":"resp_failed","status":"failed","error":{"code":"tool_catalog_too_large","message":"Too many tools"},"incomplete_details":{"reason":"upstream_error"}}}"#.to_owned()],
        None,
    );
    let payload = acc.finalize("test-model", None, None);

    assert_eq!(payload.status, "error");
    assert_eq!(payload.error.as_ref().unwrap().get_str("code"), Some("tool_catalog_too_large"));
    assert_eq!(
        payload.incomplete_details.unwrap().reason.as_deref(),
        Some("upstream_error")
    );
}

#[test]
fn test_accumulator_finalize() {
    let acc = ResponseAccumulator::new("resp_123".into(), Some("conv_456".into()));
    let payload = acc.finalize("gpt-4o", Some("resp_prev".to_owned()), Some("be helpful".to_owned()));
    assert_eq!(payload.id, "resp_123");
    assert_eq!(payload.model, "gpt-4o");
    assert_eq!(payload.conversation_id, Some("conv_456".into()));
    assert_eq!(payload.previous_response_id, Some("resp_prev".into()));
    assert_eq!(payload.instructions, Some("be helpful".into()));
    assert_eq!(payload.status, ResponseStatus::InProgress.as_str());
}

#[test]
fn test_accumulator_from_sse_lines_empty() {
    let acc = ResponseAccumulator::from_sse_lines(&vec![], None);
    assert_eq!(acc.status, ResponseStatus::InProgress);
    assert!(acc.output.is_empty());
}

#[test]
fn test_accumulator_text_delta_assigned_to_message() {
    let lines = vec![
        r#"data: {"type":"response.created","response":{"id":"resp_abc"}}"#.to_string(),
        r#"data: {"type":"response.output_item.added","item":{"id":"msg_1"}}"#.to_string(),
        r#"data: {"type":"response.output_text.delta","delta":"Hello","item_id":"msg_1"}"#.to_string(),
        r#"data: {"type":"response.output_text.delta","delta":" world","item_id":"msg_1"}"#.to_string(),
        r#"data: {"type":"response.done","response":{"usage":{"input_tokens":5,"output_tokens":2,"total_tokens":7}}}"#.to_string(),
    ];

    let acc = ResponseAccumulator::from_sse_lines(&lines, None);
    assert_eq!(acc.status, ResponseStatus::Completed);
    assert_eq!(acc.output.len(), 1);

    if let OutputItem::Message(msg) = &acc.output[0] {
        assert_eq!(msg.content.len(), 1);
        assert_eq!(msg.content[0].text, "Hello world");
    } else {
        panic!("expected OutputItem::Message");
    }

    assert!(acc.usage.is_some());
    let usage = acc.usage.unwrap();
    assert_eq!(usage.total_tokens, 7);
}

#[test]
fn test_message_status_enum() {
    assert_eq!(MessageStatus::Completed.as_str(), "completed");
    assert_eq!(MessageStatus::InProgress.as_str(), "in_progress");
}

#[test]
fn test_process_event_response_created_sets_id() {
    let mut acc = ResponseAccumulator::new("resp_old".into(), None);
    let frame = EventFrame {
        event_type: SSEEventType::ResponseCreated,
        payload: EventPayload::Response {
            id: "resp_new".into(),
            status: "in_progress".into(),
            usage: None,
        },
        wire: WireEvent::new("test"),
    };
    acc.process_event(&frame);
    assert_eq!(acc.response_id, "resp_new");
}

#[test]
fn test_process_event_response_created_empty_id_no_overwrite() {
    let mut acc = ResponseAccumulator::new("resp_keep".into(), None);
    let frame = EventFrame {
        event_type: SSEEventType::ResponseCreated,
        payload: EventPayload::Response {
            id: String::new(),
            status: "in_progress".into(),
            usage: None,
        },
        wire: WireEvent::new("test"),
    };
    acc.process_event(&frame);
    assert_eq!(acc.response_id, "resp_keep");
}

#[test]
fn test_process_event_text_delta_accumulates() {
    let mut acc = ResponseAccumulator::new("resp_1".into(), None);

    acc.process_event(&EventFrame {
        event_type: SSEEventType::OutputItemAdded,
        payload: EventPayload::OutputItemAdded {
            item_id: "msg_1".into(),
            item_type: SSEItemType::from_name("message"),
            output_index: 0,
            name: None,
            namespace: None,
            call_id: None,
            execution: None,
            status: None,
            arguments: None,
        },
        wire: WireEvent::new("test"),
    });

    acc.process_event(&EventFrame {
        event_type: SSEEventType::OutputTextDelta,
        payload: EventPayload::TextDelta {
            delta: "Hello".into(),
            item_id: "msg_1".into(),
            output_index: 0,
            content_index: 0,
        },
        wire: WireEvent::new("test"),
    });
    acc.process_event(&EventFrame {
        event_type: SSEEventType::OutputTextDelta,
        payload: EventPayload::TextDelta {
            delta: " world".into(),
            item_id: "msg_1".into(),
            output_index: 0,
            content_index: 0,
        },
        wire: WireEvent::new("test"),
    });

    acc.process_event(&EventFrame {
        event_type: SSEEventType::ResponseCompleted,
        payload: EventPayload::Response {
            id: "resp_1".into(),
            status: "completed".into(),
            usage: None,
        },
        wire: WireEvent::new("test"),
    });

    assert_eq!(acc.status, ResponseStatus::Completed);
    assert_eq!(acc.output.len(), 1);
    if let OutputItem::Message(msg) = &acc.output[0] {
        assert_eq!(msg.content[0].text, "Hello world");
    } else {
        panic!("expected Message");
    }
}

#[test]
fn test_process_event_mcp_call_done_accumulates_output() {
    let lines = vec![
        r#"data: {"type":"response.output_item.added","output_index":0,"item":{"type":"mcp_call","id":"mcp_1","server_label":"counter","name":"increment","arguments":"","status":"in_progress","approval_request_id":null,"output":null,"error":null}}"#.to_string(),
        r#"data: {"type":"response.mcp_call.in_progress","item_id":"mcp_1","output_index":0}"#.to_string(),
        r#"data: {"type":"response.mcp_call_arguments.delta","delta":"{}","item_id":"mcp_1","output_index":0}"#.to_string(),
        r#"data: {"type":"response.mcp_call_arguments.done","arguments":"{}","item_id":"mcp_1","output_index":0}"#.to_string(),
        r#"data: {"type":"response.mcp_call.completed","item_id":"mcp_1","output_index":0}"#.to_string(),
        r#"data: {"type":"response.output_item.done","output_index":0,"item":{"type":"mcp_call","id":"mcp_1","server_label":"counter","name":"increment","arguments":"{}","status":"completed","approval_request_id":null,"output":"1","error":null}}"#.to_string(),
        r#"data: {"type":"response.done","response":{"id":"resp_1","status":"completed","usage":{"input_tokens":5,"output_tokens":2,"total_tokens":7}}}"#.to_string(),
    ];

    let acc = ResponseAccumulator::from_sse_lines(&lines, None);
    assert_eq!(acc.status, ResponseStatus::Completed);
    assert_eq!(acc.output.len(), 1);
    assert!(matches!(acc.output[0], OutputItem::McpCall(_)));
}

#[test]
fn test_process_event_mcp_list_tools_done_accumulates_output() {
    let added = r#"data: {"type":"response.output_item.added","output_index":0,"item":{"type":"mcp_list_tools","id":"mcpl_1","server_label":"counter","tools":[]}}"#;
    let remaining = [
        r#"data: {"type":"response.mcp_list_tools.in_progress","item_id":"mcpl_1","output_index":0}"#.to_string(),
        r#"data: {"type":"response.mcp_list_tools.completed","item_id":"mcpl_1","output_index":0}"#.to_string(),
        r#"data: {"type":"response.output_item.done","output_index":0,"item":{"type":"mcp_list_tools","id":"mcpl_1","server_label":"counter","tools":[{"name":"increment","description":"Increment the counter","input_schema":{"type":"object","properties":{}},"annotations":{"read_only":false}}]}}"#.to_string(),
        r#"data: {"type":"response.done","response":{"id":"resp_1","status":"completed"}}"#.to_string(),
    ];

    let mut acc = ResponseAccumulator::new("resp_1".to_owned(), None);
    acc.process_sse_line(added);
    let Some(InFlightEntry {
        output_index: 0,
        item: InFlight::McpListTools { item },
    }) = acc.in_flight.get("mcpl_1")
    else {
        panic!("expected in-flight mcp_list_tools");
    };
    assert!(item.server_label.is_empty());
    assert!(item.tools.is_empty());

    for line in remaining {
        acc.process_sse_line(&line);
    }
    acc.finalize_all();

    assert_eq!(acc.status, ResponseStatus::Completed);
    assert_eq!(acc.output.len(), 1);
    let OutputItem::McpListTools(item) = &acc.output[0] else {
        panic!("expected mcp_list_tools");
    };
    assert_eq!(item.id, "mcpl_1");
    assert_eq!(item.server_label, "counter");
    assert_eq!(item.tools.len(), 1);
    assert_eq!(item.tools[0].name, "increment");
    assert_eq!(item.tools[0].annotations, Some(json(r#"{"read_only": false}"#)));
}

#[test]
fn compaction_added_and_done_accumulate_typed_output() {
    let done = r#"data: {"type":"response.output_item.done","output_index":0,"item":{"type":"compaction","id":"cmp_1","encrypted_content":"durable summary"}}"#;
    let lines = vec![
        r#"data: {"type":"response.output_item.added","output_index":0,"item":{"type":"compaction","id":"cmp_1","encrypted_content":"durable summary"}}"#.to_owned(),
        done.to_owned(),
        r#"data: {"type":"response.completed","response":{"id":"resp_1","status":"completed"}}"#.to_owned(),
    ];

    let acc = ResponseAccumulator::from_sse_lines(&lines, None);
    assert_compaction_output(&acc.output);

    let done_only = ResponseAccumulator::from_sse_lines(&vec![done.to_owned()], None);
    assert_compaction_output(&done_only.output);
}

fn assert_compaction_output(output: &[OutputItem]) {
    assert_eq!(output.len(), 1);
    let OutputItem::Compaction(item) = &output[0] else {
        panic!("expected compaction output");
    };
    assert_eq!(item.id.as_deref(), Some("cmp_1"));
    assert_eq!(item.encrypted_content, "durable summary");
}

#[test]
fn test_accumulator_reasoning_before_mcp_call_preserves_order() {
    let lines = vec![
        r#"data: {"type":"response.created","response":{"id":"resp_abc"}}"#.to_string(),
        r#"data: {"type":"response.output_item.added","output_index":0,"item":{"id":"rs_1","type":"reasoning","summary":[]}}"#.to_string(),
        r#"data: {"type":"response.reasoning_text.done","text":"thinking...","item_id":"rs_1"}"#.to_string(),
        r#"data: {"type":"response.output_item.added","output_index":1,"item":{"type":"mcp_call","id":"mcp_1","server_label":"counter","name":"increment","arguments":"","status":"in_progress","approval_request_id":null,"output":null,"error":null}}"#.to_string(),
        r#"data: {"type":"response.mcp_call.completed","item_id":"mcp_1","output_index":1}"#.to_string(),
        r#"data: {"type":"response.output_item.done","output_index":1,"item":{"type":"mcp_call","id":"mcp_1","server_label":"counter","name":"increment","arguments":"{}","status":"completed","approval_request_id":null,"output":"1","error":null}}"#.to_string(),
        r#"data: {"type":"response.done","response":{"id":"resp_abc","status":"completed","usage":{"input_tokens":5,"output_tokens":2,"total_tokens":7}}}"#.to_string(),
    ];

    let acc = ResponseAccumulator::from_sse_lines(&lines, None);
    assert_eq!(acc.output.len(), 2);
    assert!(matches!(acc.output[0], OutputItem::Reasoning(_)));
    assert!(matches!(acc.output[1], OutputItem::McpCall(_)));
}

#[test]
fn test_accumulator_reasoning_before_done_only_mcp_call_preserves_order() {
    let lines = vec![
        r#"data: {"type":"response.created","response":{"id":"resp_abc"}}"#.to_string(),
        r#"data: {"type":"response.output_item.added","output_index":0,"item":{"id":"rs_1","type":"reasoning","summary":[]}}"#.to_string(),
        r#"data: {"type":"response.reasoning_text.done","text":"thinking...","item_id":"rs_1"}"#.to_string(),
        r#"data: {"type":"response.output_item.done","output_index":1,"item":{"type":"mcp_call","id":"mcp_1","server_label":"counter","name":"increment","arguments":"{}","status":"completed","approval_request_id":null,"output":"1","error":null}}"#.to_string(),
        r#"data: {"type":"response.done","response":{"id":"resp_abc","status":"completed","usage":{"input_tokens":5,"output_tokens":2,"total_tokens":7}}}"#.to_string(),
    ];

    let acc = ResponseAccumulator::from_sse_lines(&lines, None);
    assert_eq!(acc.output.len(), 2);
    assert!(matches!(acc.output[0], OutputItem::Reasoning(_)));
    assert!(matches!(acc.output[1], OutputItem::McpCall(_)));
}

#[test]
fn test_accumulator_reasoning_before_web_search_call_preserves_order() {
    let lines = vec![
        r#"data: {"type":"response.created","response":{"id":"resp_abc"}}"#.to_string(),
        r#"data: {"type":"response.output_item.added","output_index":0,"item":{"id":"rs_1","type":"reasoning","summary":[]}}"#.to_string(),
        r#"data: {"type":"response.reasoning_text.done","text":"thinking...","item_id":"rs_1"}"#.to_string(),
        r#"data: {"type":"response.output_item.added","output_index":1,"item":{"type":"web_search_call","id":"ws_1","status":"in_progress","action":{"type":"search","query":"","sources":[]}}}"#.to_string(),
        r#"data: {"type":"response.web_search_call.in_progress","item_id":"ws_1","output_index":1}"#.to_string(),
        r#"data: {"type":"response.output_item.done","output_index":1,"item":{"type":"web_search_call","id":"ws_1","status":"completed","action":{"type":"search","query":"rust","sources":[]}}}"#.to_string(),
        r#"data: {"type":"response.done","response":{"id":"resp_abc","status":"completed","usage":{"input_tokens":5,"output_tokens":2,"total_tokens":7}}}"#.to_string(),
    ];

    let acc = ResponseAccumulator::from_sse_lines(&lines, None);
    assert_eq!(acc.output.len(), 2);
    assert!(matches!(acc.output[0], OutputItem::Reasoning(_)));
    let OutputItem::WebSearchCall(call) = &acc.output[1] else {
        panic!("expected web_search_call");
    };
    assert_eq!(call.status, WebSearchCallStatus::Completed);
    assert!(call.action.fields.field_is("type", "search"));
    assert_eq!(call.action.fields.get_str("query"), Some("rust"));
}

#[test]
fn test_accumulator_preserves_open_page_web_search_action() {
    let lines = vec![
        r#"data: {"type":"response.output_item.added","output_index":0,"item":{"type":"web_search_call","id":"ws_1","status":"in_progress"}}"#.to_string(),
        r#"data: {"type":"response.output_item.done","output_index":0,"item":{"type":"web_search_call","id":"ws_1","status":"completed","action":{"type":"open_page","url":"https://example.com"}}}"#.to_string(),
        r#"data: {"type":"response.done","response":{"id":"resp_1","status":"completed"}}"#.to_string(),
    ];

    let acc = ResponseAccumulator::from_sse_lines(&lines, None);
    assert_eq!(acc.output.len(), 1);
    let action = match &acc.output[0] {
        OutputItem::WebSearchCall(call) => Json::Object(call.action.fields.clone()),
        _ => panic!("expected web_search_call"),
    };
    assert_eq!(action.get_str("type"), Some("open_page"));
    assert_eq!(action.get_str("url"), Some("https://example.com"));
}

#[test]
fn test_accumulator_preserves_find_in_page_web_search_action() {
    let lines = vec![
        r#"data: {"type":"response.output_item.added","output_index":0,"item":{"type":"web_search_call","id":"ws_1","status":"in_progress"}}"#.to_string(),
        r#"data: {"type":"response.output_item.done","output_index":0,"item":{"type":"web_search_call","id":"ws_1","status":"completed","action":{"type":"find_in_page","url":"https://example.com","pattern":"needle"}}}"#.to_string(),
        r#"data: {"type":"response.done","response":{"id":"resp_1","status":"completed"}}"#.to_string(),
    ];

    let acc = ResponseAccumulator::from_sse_lines(&lines, None);
    assert_eq!(acc.output.len(), 1);
    let action = match &acc.output[0] {
        OutputItem::WebSearchCall(call) => Json::Object(call.action.fields.clone()),
        _ => panic!("expected web_search_call"),
    };
    assert_eq!(action.get_str("type"), Some("find_in_page"));
    assert_eq!(action.get_str("url"), Some("https://example.com"));
    assert_eq!(action.get_str("pattern"), Some("needle"));
}

#[test]
fn test_accumulator_drops_unfinished_web_search_placeholder() {
    let lines = vec![
        r#"data: {"type":"response.output_item.added","output_index":0,"item":{"type":"web_search_call","id":"ws_1","status":"in_progress"}}"#.to_string(),
        r#"data: {"type":"response.done","response":{"id":"resp_1","status":"completed"}}"#.to_string(),
    ];

    let acc = ResponseAccumulator::from_sse_lines(&lines, None);
    assert!(acc.output.is_empty());
}

#[test]
fn test_accumulator_empty_added_id_then_stable_done_does_not_duplicate() {
    let lines = vec![
        r#"data: {"type":"response.output_item.added","output_index":0,"item":{"type":"web_search_call","id":"","status":"in_progress"}}"#.to_string(),
        r#"data: {"type":"response.output_item.done","output_index":0,"item":{"type":"web_search_call","id":"ws_1","status":"completed","action":{"type":"search","query":"rust","sources":[]}}}"#.to_string(),
        r#"data: {"type":"response.done","response":{"id":"resp_1","status":"completed"}}"#.to_string(),
    ];

    let acc = ResponseAccumulator::from_sse_lines(&lines, None);
    assert_eq!(acc.output.len(), 1);
    let OutputItem::WebSearchCall(call) = &acc.output[0] else {
        panic!("expected web_search_call");
    };
    assert_eq!(call.id, "ws_1");
}

#[test]
fn test_accumulator_stable_added_id_survives_empty_done_id() {
    let lines = vec![
        r#"data: {"type":"response.output_item.added","output_index":0,"item":{"type":"web_search_call","id":"ws_added","status":"in_progress"}}"#.to_string(),
        r#"data: {"type":"response.output_item.done","output_index":0,"item":{"type":"web_search_call","id":"","status":"completed","action":{"type":"search","query":"rust","sources":[]}}}"#.to_string(),
        r#"data: {"type":"response.done","response":{"id":"resp_1","status":"completed"}}"#.to_string(),
    ];

    let acc = ResponseAccumulator::from_sse_lines(&lines, None);
    assert_eq!(acc.output.len(), 1);
    let OutputItem::WebSearchCall(call) = &acc.output[0] else {
        panic!("expected web_search_call");
    };
    assert_eq!(call.id, "ws_added");
}

#[test]
fn test_unknown_mcp_call_error_shape_is_not_dropped() {
    let lines = vec![
        r#"data: {"type":"response.created","response":{"id":"resp_abc"}}"#.to_string(),
        r#"data: {"type":"response.output_item.added","output_index":0,"item":{"type":"mcp_call","id":"mcp_1","server_label":"counter","name":"increment","arguments":"","status":"in_progress","approval_request_id":null,"output":null,"error":null}}"#.to_string(),
        r#"data: {"type":"response.output_item.done","output_index":0,"item":{"type":"mcp_call","id":"mcp_1","server_label":"counter","name":"increment","arguments":"{}","status":"failed","approval_request_id":null,"output":null,"error":{"type":"mcp_protocol_error","code":-32000,"message":"boom"}}}"#.to_string(),
        r#"data: {"type":"response.done","response":{"id":"resp_abc","status":"completed","usage":{"input_tokens":5,"output_tokens":2,"total_tokens":7}}}"#.to_string(),
    ];

    let acc = ResponseAccumulator::from_sse_lines(&lines, None);
    assert_eq!(acc.output.len(), 1);
    let OutputItem::McpCall(call) = &acc.output[0] else {
        panic!("expected mcp_call");
    };
    let Some(McpCallError::Unknown(error)) = &call.error else {
        panic!("expected unknown MCP error payload");
    };
    assert_eq!(error.get_str("type"), Some("mcp_protocol_error"));
    assert_eq!(error.get("code"), Some(&Json::Number(JsonNumber::from_i64(-32000))));
    assert_eq!(error.get_str("message"), Some("boom"));
}

#[test]
fn test_streaming_preserves_all_documented_mcp_call_statuses() {
    let lines = vec![
        r#"data: {"type":"response.output_item.done","output_index":0,"item":{"type":"mcp_call","id":"mcp_calling","server_label":"counter","name":"increment","arguments":"{}","status":"calling","approval_request_id":null,"output":null,"error":null}}"#.to_string(),
        r#"data: {"type":"response.output_item.done","output_index":1,"item":{"type":"mcp_call","id":"mcp_incomplete","server_label":"counter","name":"increment","arguments":"{}","status":"incomplete","approval_request_id":null,"output":null,"error":null}}"#.to_string(),
        r#"data: {"type":"response.output_item.done","output_index":2,"item":{"type":"mcp_call","id":"mcp_omitted","server_label":"counter","name":"increment","arguments":"{}","approval_request_id":null,"output":"1","error":null}}"#.to_string(),
        r#"data: {"type":"response.done","response":{"id":"resp_1","status":"completed","usage":{"input_tokens":5,"output_tokens":2,"total_tokens":7}}}"#.to_string(),
    ];

    let acc = ResponseAccumulator::from_sse_lines(&lines, None);
    let statuses = acc
        .output
        .iter()
        .map(|item| match item {
            OutputItem::McpCall(call) => call.status,
            _ => panic!("expected mcp_call"),
        })
        .collect::<Vec<_>>();

    assert_eq!(
        statuses,
        vec![Some(McpCallStatus::Calling), Some(McpCallStatus::Incomplete), None]
    );
}

#[test]
fn test_process_event_web_search_done_accumulates_output() {
    let lines = vec![
        r#"data: {"type":"response.output_item.added","output_index":0,"item":{"type":"web_search_call","id":"ws_1","status":"in_progress","action":{"type":"search","query":"rust","sources":[]}}}"#.to_string(),
        r#"data: {"type":"response.web_search_call.in_progress","item_id":"ws_1","output_index":0}"#.to_string(),
        r#"data: {"type":"response.output_item.done","output_index":0,"item":{"type":"web_search_call","id":"ws_1","status":"completed","action":{"type":"search","query":"rust","sources":[]}}}"#.to_string(),
        r#"data: {"type":"response.done","response":{"id":"resp_1","status":"completed","usage":{"input_tokens":5,"output_tokens":2,"total_tokens":7}}}"#.to_string(),
    ];

    let acc = ResponseAccumulator::from_sse_lines(&lines, None);
    assert_eq!(acc.status, ResponseStatus::Completed);
    assert_eq!(acc.output.len(), 1);
    assert!(matches!(acc.output[0], OutputItem::WebSearchCall(_)));
}

#[test]
fn test_process_event_completed_with_usage() {
    let mut acc = ResponseAccumulator::new("resp_1".into(), None);
    let frame = EventFrame {
        event_type: SSEEventType::ResponseCompleted,
        payload: EventPayload::Response {
            id: "resp_1".into(),
            status: "completed".into(),
            usage: Some(ResponseUsage {
                input_tokens: 10,
                output_tokens: 5,
                total_tokens: 15,
                ..ResponseUsage::default()
            }),
        },
        wire: WireEvent::new("test"),
    };
    acc.process_event(&frame);
    assert_eq!(acc.status, ResponseStatus::Completed);
    assert!(acc.usage.is_some());
    assert_eq!(acc.usage.unwrap().total_tokens, 15);
}

#[test]
fn test_process_event_failed_sets_error_status() {
    let mut acc = ResponseAccumulator::new("resp_1".into(), None);
    acc.process_event(&EventFrame {
        event_type: SSEEventType::ResponseFailed,
        payload: EventPayload::Response {
            id: "resp_1".into(),
            status: "failed".into(),
            usage: None,
        },
        wire: WireEvent::new("response.failed"),
    });
    assert_eq!(acc.status, ResponseStatus::Error);
}

#[test]
fn test_process_event_incomplete_sets_incomplete_status() {
    let mut acc = ResponseAccumulator::new("resp_1".into(), None);
    acc.process_event(&EventFrame {
        event_type: SSEEventType::ResponseIncomplete,
        payload: EventPayload::Response {
            id: "resp_1".into(),
            status: "incomplete".into(),
            usage: None,
        },
        wire: WireEvent::new("test"),
    });
    assert_eq!(acc.status, ResponseStatus::Incomplete);
}

#[test]
fn test_process_event_unknown_payload_ignored() {
    let mut acc = ResponseAccumulator::new("resp_1".into(), None);
    let frame = EventFrame {
        event_type: SSEEventType::ContentPartAdded,
        payload: EventPayload::Raw(json(r#"{"type": "response.content_part.added"}"#)),
        wire: WireEvent::new("test"),
    };
    acc.process_event(&frame);
    assert_eq!(acc.response_id, "resp_1");
    assert_eq!(acc.status, ResponseStatus::InProgress);
    assert!(acc.output.is_empty());
}

#[test]
fn test_accumulator_reasoning_and_message_from_sse() {
    let lines = vec![
        r#"data: {"type":"response.created","response":{"id":"resp_abc"}}"#.to_string(),
        r#"data: {"type":"response.output_item.added","item":{"id":"rs_1","type":"reasoning","summary":[]}}"#.to_string(),
        r#"data: {"type":"response.reasoning_text.delta","delta":"Let me ","item_id":"rs_1"}"#.to_string(),
        r#"data: {"type":"response.reasoning_text.delta","delta":"think.","item_id":"rs_1"}"#.to_string(),
        r#"data: {"type":"response.reasoning_text.done","text":"Let me think.","item_id":"rs_1"}"#.to_string(),
        r#"data: {"type":"response.output_item.added","item":{"id":"msg_1","type":"message"}}"#.to_string(),
        r#"data: {"type":"response.output_text.delta","delta":"Hello","item_id":"msg_1"}"#.to_string(),
        r#"data: {"type":"response.done","response":{"usage":{"input_tokens":10,"output_tokens":5,"total_tokens":15}}}"#.to_string(),
    ];

    let acc = ResponseAccumulator::from_sse_lines(&lines, None);
    assert_eq!(acc.status, ResponseStatus::Completed);
    assert_eq!(acc.output.len(), 2);

    if let OutputItem::Reasoning(r) = &acc.output[0] {
        assert_eq!(r.id, "rs_1");
        assert_eq!(r.content.len(), 1);
        assert_eq!(r.content[0].text, "Let me think.");
    } else {
        panic!("expected OutputItem::Reasoning, got {:?}", acc.output[0]);
    }

    if let OutputItem::Message(msg) = &acc.output[1] {
        assert_eq!(msg.id, "msg_1");
        assert_eq!(msg.content[0].text, "Hello");
    } else {
        panic!("expected OutputItem::Message");
    }
}

#[test]
fn test_accumulator_message_then_reasoning_preserves_order() {
    let lines = vec![
        r#"data: {"type":"response.created","response":{"id":"resp_abc"}}"#.to_string(),
        r#"data: {"type":"response.output_item.added","item":{"id":"msg_1","type":"message"}}"#.to_string(),
        r#"data: {"type":"response.output_text.delta","delta":"Hello","item_id":"msg_1"}"#.to_string(),
        r#"data: {"type":"response.output_item.added","item":{"id":"rs_1","type":"reasoning","summary":[]}}"#.to_string(),
        r#"data: {"type":"response.reasoning_text.done","text":"thinking...","item_id":"rs_1"}"#.to_string(),
        r#"data: {"type":"response.done","response":{"usage":{"input_tokens":10,"output_tokens":5,"total_tokens":15}}}"#.to_string(),
    ];

    let acc = ResponseAccumulator::from_sse_lines(&lines, None);
    assert_eq!(acc.output.len(), 2);
    assert!(matches!(acc.output[0], OutputItem::Message(_)));
    assert!(matches!(acc.output[1], OutputItem::Reasoning(_)));
}

#[test]
fn test_accumulator_reasoning_done_without_delta_uses_text() {
    let lines = vec![
        r#"data: {"type":"response.output_item.added","item":{"id":"rs_1","type":"reasoning","summary":[]}}"#.to_string(),
        r#"data: {"type":"response.reasoning_text.done","text":"done only","item_id":"rs_1"}"#.to_string(),
        r#"data: {"type":"response.done","response":{"usage":{"input_tokens":1,"output_tokens":1,"total_tokens":2}}}"#.to_string(),
    ];

    let acc = ResponseAccumulator::from_sse_lines(&lines, None);
    if let OutputItem::Reasoning(reasoning) = &acc.output[0] {
        assert_eq!(reasoning.content.len(), 1);
        assert_eq!(reasoning.content[0].text, "done only");
    } else {
        panic!("expected reasoning output");
    }
}

#[test]
fn test_accumulator_reasoning_from_json() {
    let body = json(r#"{
        "id": "resp_xyz",
        "status": "completed",
        "output": [
            {
                "id": "rs_1",
                "type": "reasoning",
                "summary": [],
                "content": [{"text": "thinking...", "type": "reasoning_text"}],
                "encrypted_content": null,
                "status": null
            },
            {
                "id": "msg_1",
                "type": "message",
                "role": "assistant",
                "status": "completed",
                "content": [{"type": "output_text", "text": "answer", "annotations": []}]
            }
        ],
        "usage": {"input_tokens": 10, "output_tokens": 5, "total_tokens": 15}
    }"#);

    let acc = ResponseAccumulator::from_json(&body.to_text(), None).unwrap();
    assert_eq!(acc.output.len(), 2);
    assert!(matches!(acc.output[0], OutputItem::Reasoning(_)));
    assert!(matches!(acc.output[1], OutputItem::Message(_)));
}

#[test]
fn test_blocking_preserves_all_documented_mcp_call_statuses() {
    let cases: [(Option<&str>, Option<McpCallStatus>); 3] = [
        (Some("calling"), Some(McpCallStatus::Calling)),
        (Some("incomplete"), Some(McpCallStatus::Incomplete)),
        (None, None),
    ];

    for (status, expected) in cases {
        let mut item = fields(r#"{
            "type": "mcp_call",
            "id": "mcp_1",
            "server_label": "counter",
            "name": "increment",
            "arguments": "{}",
            "approval_request_id": null,
            "output": null,
            "error": null
        }"#);
        if let Some(status) = status {
            item.set_str("status", status);
        }
        let body = json(&format!(
            r#"{{"id": "resp_1", "status": "completed", "output": [{}],
                "usage": {{"input_tokens": 5, "output_tokens": 2, "total_tokens": 7}}}}"#,
            Json::Object(item).to_text()
        ));

        let acc = ResponseAccumulator::from_json(&body.to_text(), None).unwrap();
        assert_eq!(acc.output.len(), 1);
        let OutputItem::McpCall(call) = &acc.output[0] else {
            panic!("expected mcp_call");
        };
        assert_eq!(call.status, expected);
    }
}

#[test]
fn test_function_call_accumulation_basic() {
    let mut acc = ResponseAccumulator::new("resp_1".into(), None);

    acc.process_event(&EventFrame {
        event_type: SSEEventType::OutputItemAdded,
        payload: EventPayload::OutputItemAdded {
            item_id: "fc_1".into(),
            item_type: SSEItemType::from_name("function_call"),
            output_index: 0,
            name: Some("get_weather".into()),
            namespace: Some("mcp__weather".into()),
            call_id: Some("call_abc".into()),
            execution: None,
            status: None,
            arguments: None,
        },
        wire: WireEvent::new("test"),
    });

    acc.process_event(&EventFrame {
        event_type: SSEEventType::FunctionCallArgumentsDelta,
        payload: EventPayload::FunctionCallArgsDelta {
            delta: r#"{"location""#.into(),
            call_id: Some("call_abc".into()),
            item_id: "fc_1".into(),
            output_index: 0,
        },
        wire: WireEvent::new("test"),
    });

    acc.process_event(&EventFrame {
        event_type: SSEEventType::FunctionCallArgumentsDelta,
        payload: EventPayload::FunctionCallArgsDelta {
            delta: r#":"Paris"}"#.into(),
            call_id: Some("call_abc".into()),
            item_id: "fc_1".into(),
            output_index: 0,
        },
        wire: WireEvent::new("test"),
    });

    acc.process_event(&EventFrame {
        event_type: SSEEventType::FunctionCallArgumentsDone,
        payload: EventPayload::FunctionCallArgsDone {
            arguments: r#"{"location":"Paris"}"#.into(),
            call_id: Some("call_abc".into()),
            item_id: "fc_1".into(),
            name: "get_weather".into(),
            output_index: 0,
        },
        wire: WireEvent::new("test"),
    });

    acc.process_event(&EventFrame {
        event_type: SSEEventType::ResponseCompleted,
        payload: EventPayload::Response {
            id: "resp_1".into(),
            status: "completed".into(),
            usage: None,
        },
        wire: WireEvent::new("test"),
    });

    assert_eq!(acc.status, ResponseStatus::Completed);
    assert_eq!(acc.output.len(), 1);
    if let OutputItem::FunctionCall(fc) = &acc.output[0] {
        assert_eq!(fc.id, "fc_1");
        assert_eq!(fc.call_id, "call_abc");
        assert_eq!(fc.name, "get_weather");
        assert_eq!(fc.namespace.as_deref(), Some("mcp__weather"));
        assert_eq!(fc.arguments, r#"{"location":"Paris"}"#);
        assert_eq!(fc.status, MessageStatus::Completed);
    } else {
        panic!("expected FunctionCall");
    }
}

#[test]
fn test_function_call_done_uses_deltas_when_arguments_empty() {
    let mut acc = ResponseAccumulator::new("resp_1".into(), None);

    acc.process_event(&EventFrame {
        event_type: SSEEventType::OutputItemAdded,
        payload: EventPayload::OutputItemAdded {
            item_id: "fc_1".into(),
            item_type: SSEItemType::from_name("function_call"),
            output_index: 0,
            name: Some("search".into()),
            namespace: None,
            call_id: Some("call_1".into()),
            execution: None,
            status: None,
            arguments: None,
        },
        wire: WireEvent::new("test"),
    });

    acc.process_event(&EventFrame {
        event_type: SSEEventType::FunctionCallArgumentsDelta,
        payload: EventPayload::FunctionCallArgsDelta {
            delta: r#"{"q":"rust"}"#.into(),
            call_id: Some("call_1".into()),
            item_id: "fc_1".into(),
            output_index: 0,
        },
        wire: WireEvent::new("test"),
    });

    acc.process_event(&EventFrame {
        event_type: SSEEventType::FunctionCallArgumentsDone,
        payload: EventPayload::FunctionCallArgsDone {
            arguments: String::new(),
            call_id: Some("call_1".into()),
            item_id: "fc_1".into(),
            name: "search".into(),
            output_index: 0,
        },
        wire: WireEvent::new("test"),
    });

    acc.finalize_all();
    assert_eq!(acc.output.len(), 1);
    if let OutputItem::FunctionCall(fc) = &acc.output[0] {
        assert_eq!(fc.arguments, r#"{"q":"rust"}"#);
    } else {
        panic!("expected FunctionCall");
    }
}

#[test]
fn test_function_call_multiple_parallel() {
    let mut acc = ResponseAccumulator::new("resp_1".into(), None);

    acc.process_event(&EventFrame {
        event_type: SSEEventType::OutputItemAdded,
        payload: EventPayload::OutputItemAdded {
            item_id: "fc_1".into(),
            item_type: SSEItemType::from_name("function_call"),
            output_index: 0,
            name: Some("get_weather".into()),
            namespace: None,
            call_id: Some("call_1".into()),
            execution: None,
            status: None,
            arguments: None,
        },
        wire: WireEvent::new("test"),
    });
    acc.process_event(&EventFrame {
        event_type: SSEEventType::FunctionCallArgumentsDone,
        payload: EventPayload::FunctionCallArgsDone {
            arguments: r#"{"city":"NYC"}"#.into(),
            call_id: Some("call_1".into()),
            item_id: "fc_1".into(),
            name: "get_weather".into(),
            output_index: 0,
        },
        wire: WireEvent::new("test"),
    });

    acc.process_event(&EventFrame {
        event_type: SSEEventType::OutputItemAdded,
        payload: EventPayload::OutputItemAdded {
            item_id: "fc_2".into(),
            item_type: SSEItemType::from_name("function_call"),
            output_index: 1,
            name: Some("get_time".into()),
            namespace: None,
            call_id: Some("call_2".into()),
            execution: None,
            status: None,
            arguments: None,
        },
        wire: WireEvent::new("test"),
    });
    acc.process_event(&EventFrame {
        event_type: SSEEventType::FunctionCallArgumentsDone,
        payload: EventPayload::FunctionCallArgsDone {
            arguments: r#"{"tz":"EST"}"#.into(),
            call_id: Some("call_2".into()),
            item_id: "fc_2".into(),
            name: "get_time".into(),
            output_index: 1,
        },
        wire: WireEvent::new("test"),
    });

    acc.process_event(&EventFrame {
        event_type: SSEEventType::ResponseCompleted,
        payload: EventPayload::Response {
            id: "resp_1".into(),
            status: "completed".into(),
            usage: None,
        },
        wire: WireEvent::new("test"),
    });

    assert_eq!(acc.output.len(), 2);
    assert!(matches!(&acc.output[0], OutputItem::FunctionCall(fc) if fc.name == "get_weather"));
    assert!(matches!(&acc.output[1], OutputItem::FunctionCall(fc) if fc.name == "get_time"));
}

#[test]
fn test_function_call_interleaved_with_message() {
    let mut acc = ResponseAccumulator::new("resp_1".into(), None);

    acc.process_event(&EventFrame {
        event_type: SSEEventType::OutputItemAdded,
        payload: EventPayload::OutputItemAdded {
            item_id: "msg_1".into(),
            item_type: SSEItemType::from_name("message"),
            output_index: 0,
            name: None,
            namespace: None,
            call_id: None,
            execution: None,
            status: None,
            arguments: None,
        },
        wire: WireEvent::new("test"),
    });
    acc.process_event(&EventFrame {
        event_type: SSEEventType::OutputTextDelta,
        payload: EventPayload::TextDelta {
            delta: "Let me check".into(),
            item_id: "msg_1".into(),
            output_index: 0,
            content_index: 0,
        },
        wire: WireEvent::new("test"),
    });

    acc.process_event(&EventFrame {
        event_type: SSEEventType::OutputItemAdded,
        payload: EventPayload::OutputItemAdded {
            item_id: "fc_1".into(),
            item_type: SSEItemType::from_name("function_call"),
            output_index: 1,
            name: Some("lookup".into()),
            namespace: None,
            call_id: Some("call_x".into()),
            execution: None,
            status: None,
            arguments: None,
        },
        wire: WireEvent::new("test"),
    });
    acc.process_event(&EventFrame {
        event_type: SSEEventType::FunctionCallArgumentsDone,
        payload: EventPayload::FunctionCallArgsDone {
            arguments: "{}".into(),
            call_id: Some("call_x".into()),
            item_id: "fc_1".into(),
            name: "lookup".into(),
            output_index: 1,
        },
        wire: WireEvent::new("test"),
    });

    acc.process_event(&EventFrame {
        event_type: SSEEventType::ResponseCompleted,
        payload: EventPayload::Response {
            id: "resp_1".into(),
            status: "completed".into(),
            usage: None,
        },
        wire: WireEvent::new("test"),
    });

    assert_eq!(acc.output.len(), 2);
    assert!(matches!(&acc.output[0], OutputItem::Message(m) if m.content[0].text == "Let me check"));
    assert!(matches!(&acc.output[1], OutputItem::FunctionCall(fc) if fc.name == "lookup"));
}

#[test]
fn test_function_call_done_updates_metadata() {
    let mut acc = ResponseAccumulator::new("resp_1".into(), None);

    acc.process_event(&EventFrame {
        event_type: SSEEventType::OutputItemAdded,
        payload: EventPayload::OutputItemAdded {
            item_id: "fc_1".into(),
            item_type: SSEItemType::from_name("function_call"),
            output_index: 0,
            name: Some("old_name".into()),
            namespace: None,
            call_id: Some("old_call".into()),
            execution: None,
            status: None,
            arguments: None,
        },
        wire: WireEvent::new("test"),
    });

    acc.process_event(&EventFrame {
        event_type: SSEEventType::FunctionCallArgumentsDone,
        payload: EventPayload::FunctionCallArgsDone {
            arguments: "{}".into(),
            call_id: Some("new_call".into()),
            item_id: "fc_1".into(),
            name: "new_name".into(),
            output_index: 0,
        },
        wire: WireEvent::new("test"),
    });

    acc.finalize_all();
    if let OutputItem::FunctionCall(fc) = &acc.output[0] {
        assert_eq!(fc.call_id, "new_call");
        assert_eq!(fc.name, "new_name");
    } else {
        panic!("expected FunctionCall");
    }
}

#[test]
fn test_output_item_done_restores_initially_unnamed_function_call() {
    let lines = vec![
        r#"data: {"type":"response.output_item.added","output_index":0,"item":{"type":"function_call","id":"fc_1","call_id":"","name":"","arguments":"","status":"in_progress"}}"#.to_string(),
        r#"data: {"type":"response.function_call_arguments.delta","output_index":0,"item_id":"fc_1","delta":"{\"input\":\"hello\"}"}"#.to_string(),
        r#"data: {"type":"response.output_item.done","output_index":0,"item":{"type":"function_call","id":"fc_1","call_id":"call_1","name":"raw_echo","arguments":"","status":"completed"}}"#.to_string(),
        r#"data: {"type":"response.completed","response":{"id":"resp_1","status":"completed","usage":null}}"#.to_string(),
    ];

    let acc = ResponseAccumulator::from_sse_lines(&lines, None);
    assert_eq!(acc.output.len(), 1);
    let OutputItem::FunctionCall(call) = &acc.output[0] else {
        panic!("expected function_call");
    };
    assert_eq!(call.id, "fc_1");
    assert_eq!(call.call_id, "call_1");
    assert_eq!(call.name, "raw_echo");
    assert_eq!(call.arguments, r#"{"input":"hello"}"#);
    assert_eq!(call.status, MessageStatus::Completed);
}

#[test]
fn test_function_call_done_matches_empty_added_id_by_output_index() {
    let lines = vec![
        r#"data: {"type":"response.output_item.added","output_index":3,"item":{"type":"function_call","id":"","call_id":"","name":"","arguments":"","status":"in_progress"}}"#.to_string(),
        r#"data: {"type":"response.output_item.done","output_index":3,"item":{"type":"function_call","id":"fc_done","call_id":"call_done","name":"raw_echo","arguments":"{}","status":"completed"}}"#.to_string(),
        r#"data: {"type":"response.completed","response":{"id":"resp_1","status":"completed","usage":null}}"#.to_string(),
    ];

    let acc = ResponseAccumulator::from_sse_lines(&lines, None);
    assert_eq!(acc.output.len(), 1);
    let OutputItem::FunctionCall(call) = &acc.output[0] else {
        panic!("expected function_call");
    };
    assert_eq!(call.id, "fc_done");
    assert_eq!(call.call_id, "call_done");
    assert_eq!(call.name, "raw_echo");
}

#[test]
fn test_done_only_function_call_is_completed() {
    let lines = vec![
        r#"data: {"type":"response.output_item.done","output_index":0,"item":{"type":"function_call","id":"fc_1","call_id":"call_1","name":"get_weather","arguments":"{\"city\":\"Paris\"}","status":"completed"}}"#.to_string(),
        r#"data: {"type":"response.completed","response":{"id":"resp_1","status":"completed","usage":null}}"#.to_string(),
    ];

    let acc = ResponseAccumulator::from_sse_lines(&lines, None);
    assert_eq!(acc.output.len(), 1);
    let OutputItem::FunctionCall(call) = &acc.output[0] else {
        panic!("expected function_call");
    };
    assert_eq!(call.id, "fc_1");
    assert_eq!(call.call_id, "call_1");
    assert_eq!(call.name, "get_weather");
    assert_eq!(call.arguments, r#"{"city":"Paris"}"#);
}

#[test]
fn test_function_call_empty_item_id_generates_uuid() {
    let mut acc = ResponseAccumulator::new("resp_1".into(), None);

    acc.process_event(&EventFrame {
        event_type: SSEEventType::OutputItemAdded,
        payload: EventPayload::OutputItemAdded {
            item_id: String::new(),
            item_type: SSEItemType::from_name("function_call"),
            output_index: 0,
            name: Some("tool".into()),
            namespace: None,
            call_id: Some("c1".into()),
            execution: None,
            status: None,
            arguments: None,
        },
        wire: WireEvent::new("test"),
    });

    acc.process_event(&EventFrame {
        event_type: SSEEventType::FunctionCallArgumentsDone,
        payload: EventPayload::FunctionCallArgsDone {
            arguments: "{}".into(),
            call_id: Some("c1".into()),
            item_id: String::new(),
            name: "tool".into(),
            output_index: 0,
        },
        wire: WireEvent::new("test"),
    });

    acc.finalize_all();
    if let OutputItem::FunctionCall(fc) = &acc.output[0] {
        assert!(fc.id.starts_with("fc_"), "expected fc_ prefix, got: {}", fc.id);
    } else {
        panic!("expected FunctionCall");
    }
}

/// Orphaned delta (no active function call for this `item_id`) is silently dropped.
#[test]
fn test_function_call_orphaned_delta_safe() {
    let mut acc = ResponseAccumulator::new("resp_1".into(), None);

    acc.process_event(&EventFrame {
        event_type: SSEEventType::FunctionCallArgumentsDelta,
        payload: EventPayload::FunctionCallArgsDelta {
            delta: "orphan".into(),
            call_id: None,
            item_id: String::new(),
            output_index: 0,
        },
        wire: WireEvent::new("test"),
    });

    assert!(acc.output.is_empty());
    assert!(acc.in_flight.is_empty());
}

#[test]
fn test_function_call_finalized_on_response_completed() {
    let mut acc = ResponseAccumulator::new("resp_1".into(), None);

    acc.process_event(&EventFrame {
        event_type: SSEEventType::OutputItemAdded,
        payload: EventPayload::OutputItemAdded {
            item_id: "fc_1".into(),
            item_type: SSEItemType::from_name("function_call"),
            output_index: 0,
            name: Some("partial".into()),
            namespace: None,
            call_id: Some("c1".into()),
            execution: None,
            status: None,
            arguments: None,
        },
        wire: WireEvent::new("test"),
    });
    acc.process_event(&EventFrame {
        event_type: SSEEventType::FunctionCallArgumentsDelta,
        payload: EventPayload::FunctionCallArgsDelta {
            delta: r#"{"x":1}"#.into(),
            call_id: Some("c1".into()),
            item_id: "fc_1".into(),
            output_index: 0,
        },
        wire: WireEvent::new("test"),
    });

    acc.process_event(&EventFrame {
        event_type: SSEEventType::ResponseCompleted,
        payload: EventPayload::Response {
            id: "resp_1".into(),
            status: "completed".into(),
            usage: None,
        },
        wire: WireEvent::new("test"),
    });

    assert_eq!(acc.output.len(), 1);
    if let OutputItem::FunctionCall(fc) = &acc.output[0] {
        assert_eq!(fc.arguments, r#"{"x":1}"#);
        assert_eq!(fc.status, MessageStatus::Completed);
    } else {
        panic!("expected FunctionCall");
    }
}

#[test]
fn test_function_call_from_sse_lines() {
    let lines = vec![
        r#"data: {"type":"response.created","response":{"id":"resp_fc"}}"#.to_string(),
        r#"data: {"type":"response.output_item.added","item":{"id":"fc_1","type":"function_call","name":"get_weather","call_id":"call_abc"}}"#.to_string(),
        r#"data: {"type":"response.function_call_arguments.delta","delta":"{\"city\":","item_id":"fc_1"}"#.to_string(),
        r#"data: {"type":"response.function_call_arguments.delta","delta":"\"SF\"}}","item_id":"fc_1"}"#.to_string(),
        r#"data: {"type":"response.function_call_arguments.done","arguments":"{\"city\":\"SF\"}","call_id":"call_abc","name":"get_weather","item_id":"fc_1"}"#.to_string(),
        r#"data: {"type":"response.done","response":{"id":"resp_fc","usage":{"input_tokens":10,"output_tokens":5,"total_tokens":15}}}"#.to_string(),
    ];

    let acc = ResponseAccumulator::from_sse_lines(&lines, Some("conv_1".to_owned()));
    assert_eq!(acc.status, ResponseStatus::Completed);
    assert_eq!(acc.output.len(), 1);

    if let OutputItem::FunctionCall(fc) = &acc.output[0] {
        assert_eq!(fc.name, "get_weather");
        assert_eq!(fc.arguments, r#"{"city":"SF"}"#);
        assert_eq!(fc.call_id, "call_abc");
    } else {
        panic!("expected FunctionCall");
    }

    assert_eq!(acc.usage.unwrap().total_tokens, 15);
}

#[test]
fn test_native_tool_search_call_accumulates_as_first_class_item() {
    let lines = vec![
        r#"data: {"type":"response.output_item.added","output_index":0,"item":{"id":"tsc_native","type":"tool_search_call","status":"in_progress","call_id":"call_search","execution":"client","arguments":{}}}"#.to_owned(),
        r#"data: {"type":"response.output_item.done","output_index":0,"item":{"id":"tsc_native","type":"tool_search_call","status":"completed","call_id":"call_search","execution":"client","arguments":{"query":"weather"}}}"#.to_owned(),
        r#"data: {"type":"response.completed","response":{"id":"resp_native","status":"completed","usage":null}}"#.to_owned(),
    ];

    let acc = ResponseAccumulator::from_sse_lines(&lines, None);
    assert!(acc.processing_error.is_none());
    let [OutputItem::ToolSearchCall(call)] = acc.output.as_slice() else {
        panic!("expected one native tool-search call");
    };
    assert_eq!(call.id, "tsc_native");
    assert_eq!(call.call_id, "call_search");
    assert_eq!(call.status, ToolSearchStatus::Completed);
    assert_eq!(
        call.arguments,
        json(r#"{"query": "weather"}"#).as_object().unwrap().clone()
    );
}

#[test]
fn failed_response_discards_unfinished_tool_search_items() {
    let added_items = [
        r#"data: {"type":"response.output_item.added","output_index":0,"item":{"id":"fc_search","type":"function_call","status":"in_progress","call_id":"call_search","name":"tool_search","arguments":""}}"#,
        r#"data: {"type":"response.output_item.added","output_index":0,"item":{"id":"tsc_native","type":"tool_search_call","status":"in_progress","call_id":"call_search","execution":"client","arguments":{}}}"#,
    ];
    for added in added_items {
        let mut acc = ResponseAccumulator::new("resp_failed".to_owned(), None)
            .with_tool_types(
                search_types(),
                &Keys::new(),
            )
            .unwrap();
        acc.process_sse_line(added);
        acc.process_sse_line(
            r#"data: {"type":"response.failed","response":{"id":"resp_failed","status":"failed","usage":null}}"#,
        );

        assert_eq!(acc.status, ResponseStatus::Error);
        assert!(acc.output.is_empty());
        assert!(acc.processing_error.is_none());
    }
}

#[test]
fn completed_response_rejects_unfinished_synthetic_tool_search() {
    let mut acc = ResponseAccumulator::new("resp_invalid".to_owned(), None)
        .with_tool_types(
            search_types(),
            &Keys::new(),
        )
        .unwrap();
    acc.process_sse_line(
        r#"data: {"type":"response.output_item.added","output_index":0,"item":{"id":"fc_search","type":"function_call","status":"in_progress","call_id":"call_search","name":"tool_search","arguments":""}}"#,
    );
    acc.process_sse_line(
        r#"data: {"type":"response.completed","response":{"id":"resp_invalid","status":"completed","usage":null}}"#,
    );

    assert!(acc.processing_error.is_some());
}

#[test]
fn test_custom_tool_call_accumulates_freeform_input() {
    let lines = vec![
        r#"data: {"type":"response.created","response":{"id":"resp_custom"}}"#.to_string(),
        r#"data: {"type":"response.output_item.added","output_index":0,"item":{"id":"ctc_1","type":"custom_tool_call","call_id":"","name":"","input":"","status":"in_progress"}}"#.to_string(),
        r#"data: {"type":"response.custom_tool_call_input.delta","item_id":"ctc_1","output_index":0,"delta":"*** Begin"}"#.to_string(),
        r#"data: {"type":"response.custom_tool_call_input.delta","item_id":"ctc_1","output_index":0,"delta":" Patch"}"#.to_string(),
        r#"data: {"type":"response.custom_tool_call_input.done","item_id":"ctc_1","output_index":0,"input":""}"#.to_string(),
        r#"data: {"type":"response.output_item.done","output_index":0,"item":{"id":"ctc_1","type":"custom_tool_call","call_id":"call_1","name":"apply_patch","input":"","status":"completed"}}"#.to_string(),
        r#"data: {"type":"response.completed","response":{"id":"resp_custom","status":"completed","usage":null}}"#.to_string(),
    ];

    let acc = ResponseAccumulator::from_sse_lines(&lines, None);
    assert_eq!(acc.output.len(), 1);
    let OutputItem::CustomToolCall(call) = &acc.output[0] else {
        panic!("expected CustomToolCall");
    };
    assert_eq!(call.call_id, "call_1");
    assert_eq!(call.name, "apply_patch");
    assert_eq!(call.input, "*** Begin Patch");
    assert_eq!(call.status, Some(MessageStatus::Completed));
}

#[test]
fn test_reasoning_before_done_only_custom_tool_call_preserves_order() {
    let lines = vec![
        r#"data: {"type":"response.created","response":{"id":"resp_custom"}}"#.to_string(),
        r#"data: {"type":"response.output_item.added","output_index":0,"item":{"id":"rs_1","type":"reasoning","summary":[]}}"#.to_string(),
        r#"data: {"type":"response.reasoning_text.done","text":"thinking...","item_id":"rs_1"}"#.to_string(),
        r#"data: {"type":"response.output_item.done","output_index":1,"item":{"id":"ctc_1","type":"custom_tool_call","call_id":"call_1","name":"raw_echo","input":"hello","status":"completed"}}"#.to_string(),
        r#"data: {"type":"response.completed","response":{"id":"resp_custom","status":"completed","usage":null}}"#.to_string(),
    ];

    let acc = ResponseAccumulator::from_sse_lines(&lines, None);
    assert_eq!(acc.output.len(), 2);
    assert!(matches!(acc.output[0], OutputItem::Reasoning(_)));
    let OutputItem::CustomToolCall(call) = &acc.output[1] else {
        panic!("expected CustomToolCall");
    };
    assert_eq!(call.call_id, "call_1");
    assert_eq!(call.name, "raw_echo");
    assert_eq!(call.input, "hello");
}

#[test]
fn a_body_that_cannot_be_parsed_is_a_parse_error() {
    let error = ResponseAccumulator::from_json("not json", None).err().unwrap();
    assert_eq!(error, ExecutorError::ParseError("expected ident at line 1 column 2".to_owned()));
    let error = ResponseAccumulator::from_json("{}", None).err().unwrap();
    assert_eq!(
        error,
        ExecutorError::ParseError("missing 'id' field in response".to_owned())
    );
}

#[test]
fn a_stream_with_a_chunk_that_cannot_be_parsed_is_a_parse_error() {
    let lines = vec![
        r#"data: {"type":"response.created","response":{"id":"resp_1"}}"#.to_owned(),
        "data: {not json".to_owned(),
    ];
    let error = ResponseAccumulator::process_stream_chunks(&lines, None).err().unwrap();
    assert_eq!(
        error,
        ExecutorError::ParseError("key must be a string at line 1 column 2".to_owned())
    );
    assert_eq!(ResponseAccumulator::from_sse_lines(&lines, None).response_id, "resp_1");
    let fine = vec![": comment".to_owned(), "data: [DONE]".to_owned(), String::new()];
    assert!(ResponseAccumulator::process_stream_chunks(&fine, None).is_ok());
    assert_eq!(unreadable_data("data: x", Err("why".to_owned())), Some("why".to_owned()));
    assert_eq!(unreadable_data("data: [DONE]", Err("why".to_owned())), None);
    assert_eq!(unreadable_data("event: x", Err("why".to_owned())), None);
}
