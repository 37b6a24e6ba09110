//! A model's function calls as clients see them while they stream in.
use agentic_core::accumulator::ResponseAccumulator;
use agentic_core::events::{EventFrame, SSEEventType};
use agentic_core::function_sse::{
    FunctionSseTranslation, FunctionSseTranslator, MAX_PENDING_FUNCTION_BYTES,
    MAX_PENDING_FUNCTION_CALLS,
};
use agentic_core::items::{InputItem, OutputItem};
use agentic_core::json::Json;
use agentic_core::search::public_output_item;
use agentic_core::tables::Table;
use agentic_core::tools::ToolType;
use agentic_core::wire::{FromJson, ToJson};

fn json(text: &str) -> Json {
    Json::parse(text).expect("valid JSON")
}

fn quoted(text: &str) -> String {
    Json::text(text).to_text()
}

fn types(entries: &[(&str, ToolType)]) -> Table<String, ToolType> {
    let mut table = Table::new();
    for (name, tool_type) in entries {
        table.insert((*name).to_owned(), *tool_type);
    }
    table
}

fn in_wire<'a>(frame: &'a EventFrame, path: &[&str]) -> Option<&'a Json> {
    let mut here = frame.wire.rest.get(path[0])?;
    for key in &path[1..] {
        here = here.get(key)?;
    }
    Some(here)
}

fn sse(event: &Json) -> String {
    format!("data: {}", event.to_text())
}

fn translate(
    accumulator: &mut ResponseAccumulator,
    translator: &mut FunctionSseTranslator,
    event: &Json,
) -> FunctionSseTranslation {
    accumulator
        .process_sse_line_with_translator(&sse(event), translator)
        .expect("translation succeeds")
        .expect("a known event")
}

fn search_event_sequence(item_id: &str, call_id: &str, arguments: &str) -> [Json; 5] {
    let split = arguments.len() / 2;
    let (first, second) = arguments.split_at(split);
    [
        json(&format!(
        r#"{{
            "type": "response.output_item.added", "output_index": 0,
            "item": {{"id": {}, "type": "function_call", "call_id": {},
                "name": "tool_search", "arguments": "", "status": "in_progress"}}
        }}"#,
        quoted(item_id), quoted(call_id)
    )),
        json(&format!(
        r#"{{
            "type": "response.function_call_arguments.delta", "output_index": 0,
            "item_id": {}, "call_id": {}, "delta": {}
        }}"#,
        quoted(item_id), quoted(call_id), quoted(first)
    )),
        json(&format!(
        r#"{{
            "type": "response.function_call_arguments.delta", "output_index": 0,
            "item_id": {}, "call_id": {}, "delta": {}
        }}"#,
        quoted(item_id), quoted(call_id), quoted(second)
    )),
        json(&format!(
        r#"{{
            "type": "response.function_call_arguments.done", "output_index": 0,
            "item_id": {}, "call_id": {}, "name": "tool_search", "arguments": {}
        }}"#,
        quoted(item_id), quoted(call_id), quoted(arguments)
    )),
        json(&format!(
        r#"{{
            "type": "response.output_item.done", "output_index": 0,
            "item": {{"id": {}, "type": "function_call", "call_id": {},
                "name": "tool_search", "arguments": {}, "status": "completed"}}
        }}"#,
        quoted(item_id), quoted(call_id), quoted(arguments)
    )),
    ]
}

#[test]
fn tool_search_stream_emits_only_public_added_and_done_with_stable_identity() {
    let mut accumulator = ResponseAccumulator::new("resp_1".to_owned(), None);
    let mut translator = FunctionSseTranslator::new(types(&[
        ("tool_search", ToolType::ToolSearch),
        ("weather", ToolType::Function),
    ]));
    let arguments = r#"{"query":"weather"}"#;
    let mut frames = Vec::new();

    for (index, event) in search_event_sequence("fc_search", "call_search", arguments)
        .into_iter()
        .enumerate()
    {
        frames.extend(translate(&mut accumulator, &mut translator, &event).frames);
        if index == 1 {
            let ordinary = json(r#"{
                "type": "response.output_item.added", "output_index": 1,
                "item": {"id": "fc_weather", "type": "function_call", "call_id": "call_weather",
                    "name": "weather", "arguments": "", "status": "in_progress"}
            }"#);
            frames.extend(translate(&mut accumulator, &mut translator, &ordinary).frames);
        }
    }

    assert_eq!(
        frames.iter().map(|frame| frame.event_type).collect::<Vec<_>>(),
        [
            SSEEventType::OutputItemAdded,
            SSEEventType::OutputItemAdded,
            SSEEventType::OutputItemDone
        ]
    );
    let search_frames = frames
        .iter()
        .filter(|frame| frame.wire.output_index == Some(0))
        .collect::<Vec<_>>();
    assert_eq!(search_frames.len(), 2);
    assert_eq!(in_wire(search_frames[0], &["item", "type"]), Some(&Json::text("tool_search_call")));
    assert_eq!(in_wire(search_frames[0], &["item", "status"]), Some(&Json::text("in_progress")));
    assert_eq!(in_wire(search_frames[0], &["item", "arguments"]), Some(&json(r#"{}"#)));
    assert_eq!(in_wire(search_frames[1], &["item", "type"]), Some(&Json::text("tool_search_call")));
    assert_eq!(in_wire(search_frames[1], &["item", "status"]), Some(&Json::text("completed")));
    assert_eq!(
        in_wire(search_frames[1], &["item", "arguments"]),
        Some(&json(r#"{"query": "weather"}"#))
    );
    assert_eq!(in_wire(search_frames[0], &["item", "id"]), Some(&Json::text("tsc_search")));
    assert_eq!(
        in_wire(search_frames[0], &["item", "id"]),
        in_wire(search_frames[1], &["item", "id"])
    );
    assert_eq!(in_wire(search_frames[0], &["item", "call_id"]), Some(&Json::text("call_search")));
    assert_eq!(
        in_wire(search_frames[0], &["item", "call_id"]),
        in_wire(search_frames[1], &["item", "call_id"])
    );
    assert_eq!(in_wire(&frames[1], &["item", "type"]), Some(&Json::text("function_call")));

    let blocking = public_output_item("fc_search", "call_search", arguments)
        .expect("blocking translation uses the same identity helper");
    let blocking = OutputItem::ToolSearchCall(blocking).to_json();
    let replay = InputItem::from_json(&blocking).expect("public item replays").to_json();
    assert_eq!(Some(&blocking), in_wire(search_frames[1], &["item"]));
    assert_eq!(Some(&replay), in_wire(search_frames[1], &["item"]));
}

#[test]
fn tool_search_stream_rejects_malformed_arguments_and_empty_call_id() {
    for (call_id, arguments) in [("call_search", "[1]"), ("call_search", "{"), ("", "{}")] {
        let mut accumulator = ResponseAccumulator::new("resp_1".to_owned(), None);
        let mut translator =
            FunctionSseTranslator::new(types(&[("tool_search", ToolType::ToolSearch)]));
        let mut error = None;
        for event in search_event_sequence("fc_search", call_id, arguments) {
            match accumulator.process_sse_line_with_translator(&sse(&event), &mut translator) {
                Ok(_) => {}
                Err(found) => {
                    error = Some(found);
                    break;
                }
            }
        }
        assert!(
            error
                .expect("invalid synthetic search stream must fail")
                .message()
                .contains("invalid tool-search call")
        );
    }
}

#[test]
fn tool_search_stream_rejects_linkage_changes_second_call_and_premature_eof() {
    let mut accumulator = ResponseAccumulator::new("resp_1".to_owned(), None);
    let mut translator =
        FunctionSseTranslator::new(types(&[("tool_search", ToolType::ToolSearch)]));
    let added = &search_event_sequence("fc_search", "call_search", r#"{"query":"weather"}"#)[0];
    translate(&mut accumulator, &mut translator, added);

    let wrong_item = json(r#"{
        "type": "response.function_call_arguments.delta", "output_index": 0,
        "item_id": "fc_other", "delta": "{}"
    }"#);
    assert!(
        accumulator
            .process_sse_line_with_translator(&sse(&wrong_item), &mut translator)
            .expect_err("changed item ID must fail")
            .message()
            .contains("invalid tool-search call")
    );
    assert!(
        translator.finish().is_err(),
        "an unfinished search call must fail at EOF"
    );

    let mut unnamed_accumulator = ResponseAccumulator::new("resp_unnamed".to_owned(), None);
    let mut unnamed_translator =
        FunctionSseTranslator::new(types(&[("tool_search", ToolType::ToolSearch)]));
    for event in [
        json(r#"{
            "type": "response.output_item.added", "output_index": 0,
            "item": {"id": "fc_expected", "type": "function_call", "call_id": "call_expected",
                "arguments": "", "status": "in_progress"}
        }"#),
        json(r#"{
            "type": "response.function_call_arguments.delta", "output_index": 0,
            "item_id": "fc_wrong", "delta": "{}"
        }"#),
    ] {
        unnamed_accumulator
            .process_sse_line_with_translator(&sse(&event), &mut unnamed_translator)
            .expect("unnamed frames buffer before resolution");
    }
    let resolving_done = json(r#"{
        "type": "response.function_call_arguments.done", "output_index": 0,
        "item_id": "fc_expected", "name": "tool_search", "arguments": "{}"
    }"#);
    assert!(
        unnamed_accumulator
            .process_sse_line_with_translator(&sse(&resolving_done), &mut unnamed_translator)
            .expect_err("buffered delta item linkage must be validated")
            .message()
            .contains("invalid tool-search call")
    );

    let mut second_accumulator = ResponseAccumulator::new("resp_2".to_owned(), None);
    let mut second_translator =
        FunctionSseTranslator::new(types(&[("tool_search", ToolType::ToolSearch)]));
    for event in search_event_sequence("fc_first", "call_first", "{}") {
        translate(&mut second_accumulator, &mut second_translator, &event);
    }
    let second_added = json(r#"{
        "type": "response.output_item.added", "output_index": 1,
        "item": {"id": "fc_second", "type": "function_call", "call_id": "call_second",
            "name": "tool_search", "arguments": "", "status": "in_progress"}
    }"#);
    assert!(
        second_accumulator
            .process_sse_line_with_translator(&sse(&second_added), &mut second_translator)
            .expect_err("a second synthetic search call must fail")
            .message()
            .contains("invalid tool-search call")
    );
}

#[test]
fn tool_search_stream_accepts_authoritative_done_without_argument_deltas() {
    let mut accumulator = ResponseAccumulator::new("resp_done_only".to_owned(), None);
    let mut translator =
        FunctionSseTranslator::new(types(&[("tool_search", ToolType::ToolSearch)]));
    let events = search_event_sequence("fc_search", "call_search", r#"{"query":"weather"}"#);

    let frames = [0, 3, 4]
        .into_iter()
        .flat_map(|index| translate(&mut accumulator, &mut translator, &events[index]).frames)
        .collect::<Vec<_>>();

    assert_eq!(
        frames.iter().map(|frame| frame.event_type).collect::<Vec<_>>(),
        [SSEEventType::OutputItemAdded, SSEEventType::OutputItemDone]
    );
    assert_eq!(
        in_wire(&frames[1], &["item", "arguments"]),
        Some(&json(r#"{"query": "weather"}"#))
    );
    assert!(translator.finish().is_ok());
}

#[test]
fn tool_search_stream_accepts_omitted_done_name_for_active_call() {
    let mut accumulator = ResponseAccumulator::new("resp_omitted_done_name".to_owned(), None);
    let mut translator =
        FunctionSseTranslator::new(types(&[("tool_search", ToolType::ToolSearch)]));
    let arguments = r#"{"query": "add numbers"}"#;
    let events = [
        json(r#"{
            "type": "response.output_item.added", "output_index": 1,
            "item": {"id": "fc_search", "type": "function_call", "call_id": "call_search",
                "name": "tool_search", "arguments": "", "status": "in_progress"}
        }"#),
        json(r#"{
            "type": "response.function_call_arguments.delta", "output_index": 1,
            "item_id": "fc_search", "delta": "{}"
        }"#),
        json(r#"{
            "type": "response.function_call_arguments.delta", "output_index": 1,
            "item_id": "fc_search", "delta": "{\"query\": \""
        }"#),
        json(r#"{
            "type": "response.function_call_arguments.delta", "output_index": 1,
            "item_id": "fc_search", "delta": "add numbers"
        }"#),
        json(r#"{
            "type": "response.function_call_arguments.delta", "output_index": 1,
            "item_id": "fc_search", "delta": "\"}"
        }"#),
        json(&format!(
        r#"{{
            "type": "response.function_call_arguments.done", "output_index": 1,
            "item_id": "fc_search", "arguments": {}
        }}"#,
        quoted(arguments)
    )),
        json(&format!(
        r#"{{
            "type": "response.output_item.done", "output_index": 1,
            "item": {{"id": "fc_search", "type": "function_call", "call_id": "call_search",
                "name": "tool_search", "arguments": {}, "status": "completed"}}
        }}"#,
        quoted(arguments)
    )),
    ];

    let frames = events
        .iter()
        .flat_map(|event| translate(&mut accumulator, &mut translator, event).frames)
        .collect::<Vec<_>>();

    assert_eq!(
        frames.iter().map(|frame| frame.event_type).collect::<Vec<_>>(),
        [SSEEventType::OutputItemAdded, SSEEventType::OutputItemDone]
    );
    assert_eq!(frames[0].wire.output_index, Some(1));
    assert_eq!(frames[1].wire.output_index, Some(1));
    assert_eq!(in_wire(&frames[0], &["item", "id"]), Some(&Json::text("tsc_search")));
    assert_eq!(in_wire(&frames[0], &["item", "call_id"]), Some(&Json::text("call_search")));
    assert_eq!(in_wire(&frames[0], &["item", "execution"]), Some(&Json::text("client")));
    assert_eq!(in_wire(&frames[0], &["item", "status"]), Some(&Json::text("in_progress")));
    assert_eq!(in_wire(&frames[1], &["item", "id"]), Some(&Json::text("tsc_search")));
    assert_eq!(in_wire(&frames[1], &["item", "call_id"]), Some(&Json::text("call_search")));
    assert_eq!(in_wire(&frames[1], &["item", "execution"]), Some(&Json::text("client")));
    assert_eq!(in_wire(&frames[1], &["item", "status"]), Some(&Json::text("completed")));
    assert_eq!(
        in_wire(&frames[1], &["item", "arguments"]),
        Some(&json(r#"{"query": "add numbers"}"#))
    );
    assert!(translator.finish().is_ok());
}

#[test]
fn tool_search_stream_rejects_authoritative_shape_and_linkage_mismatches() {
    let added = search_event_sequence("fc_search", "call_search", "{}")[0].clone();
    for (label, followup) in [
        (
            "wrong call id",
            json(r#"{
                "type": "response.function_call_arguments.delta", "output_index": 0,
                "item_id": "fc_search", "call_id": "call_other", "delta": "{}"
            }"#),
        ),
        (
            "missing output index",
            json(r#"{
                "type": "response.function_call_arguments.delta",
                "item_id": "fc_search", "call_id": "call_search", "delta": "{}"
            }"#),
        ),
        (
            "wrong done name",
            json(r#"{
                "type": "response.function_call_arguments.done", "output_index": 0,
                "item_id": "fc_search", "call_id": "call_search", "name": "weather",
                "arguments": "{}"
            }"#),
        ),
        (
            "empty done name",
            json(r#"{
                "type": "response.function_call_arguments.done", "output_index": 0,
                "item_id": "fc_search", "call_id": "call_search", "name": "", "arguments": "{}"
            }"#),
        ),
        (
            "null done name",
            json(r#"{
                "type": "response.function_call_arguments.done", "output_index": 0,
                "item_id": "fc_search", "call_id": "call_search", "name": null, "arguments": "{}"
            }"#),
        ),
        (
            "non-string done name",
            json(r#"{
                "type": "response.function_call_arguments.done", "output_index": 0,
                "item_id": "fc_search", "call_id": "call_search", "name": 7, "arguments": "{}"
            }"#),
        ),
    ] {
        let mut accumulator = ResponseAccumulator::new(format!("resp_{label}"), None);
        let mut translator =
            FunctionSseTranslator::new(types(&[("tool_search", ToolType::ToolSearch)]));
        translate(&mut accumulator, &mut translator, &added);

        let error = accumulator
            .process_sse_line_with_translator(&sse(&followup), &mut translator)
            .expect_err(label);
        assert!(error.is_invalid_upstream_tool_search(), "{label}: {}", error.message());
    }

    for (label, invalid_added) in [
        (
            "namespace on added",
            json(r#"{
                "type": "response.output_item.added", "output_index": 0,
                "item": {"id": "fc_search", "type": "function_call", "call_id": "call_search",
                    "name": "tool_search", "namespace": "tools", "arguments": "", "status": "in_progress"}
            }"#),
        ),
        (
            "missing added output index",
            json(r#"{
                "type": "response.output_item.added",
                "item": {"id": "fc_search", "type": "function_call", "call_id": "call_search",
                    "name": "tool_search", "arguments": "", "status": "in_progress"}
            }"#),
        ),
    ] {
        let mut accumulator = ResponseAccumulator::new(format!("resp_{label}"), None);
        let mut translator =
            FunctionSseTranslator::new(types(&[("tool_search", ToolType::ToolSearch)]));
        let error = accumulator
            .process_sse_line_with_translator(&sse(&invalid_added), &mut translator)
            .expect_err(label);
        assert!(error.is_invalid_upstream_tool_search(), "{label}: {}", error.message());
    }

    let mut accumulator = ResponseAccumulator::new("resp_index_collision".to_owned(), None);
    let mut translator = FunctionSseTranslator::new(types(&[
        ("tool_search", ToolType::ToolSearch),
        ("weather", ToolType::Function),
    ]));
    let ordinary = json(r#"{
        "type": "response.output_item.added", "output_index": 0,
        "item": {"id": "fc_weather", "type": "function_call", "call_id": "call_weather",
            "name": "weather", "arguments": "", "status": "in_progress"}
    }"#);
    translate(&mut accumulator, &mut translator, &ordinary);
    let error = accumulator
        .process_sse_line_with_translator(&sse(&added), &mut translator)
        .expect_err("search must not overwrite an active output index");
    assert!(error.is_invalid_upstream_tool_search(), "{}", error.message());
}

#[test]
fn unfinished_search_ids_include_pending_candidates_with_other_loaded_tools_only_until_resolved() {
    let tool_types = types(&[
        ("tool_search", ToolType::ToolSearch),
        ("weather", ToolType::Function),
    ]);
    let unnamed = json(r#"{
        "type": "response.output_item.added", "output_index": 0,
        "item": {"id": "fc_candidate", "type": "function_call", "call_id": "call_candidate",
            "arguments": "", "status": "in_progress"}
    }"#);

    let mut pending_accumulator = ResponseAccumulator::new("resp_pending".to_owned(), None);
    let mut pending_translator = FunctionSseTranslator::new(tool_types.clone());
    translate(&mut pending_accumulator, &mut pending_translator, &unnamed);
    let unfinished = pending_translator.unfinished_search_item_ids();
    assert_eq!(unfinished.len(), 1);
    assert!(unfinished.contains(&"fc_candidate".to_owned()));

    let mut ordinary_accumulator = ResponseAccumulator::new("resp_ordinary".to_owned(), None);
    let mut ordinary_translator = FunctionSseTranslator::new(tool_types);
    translate(&mut ordinary_accumulator, &mut ordinary_translator, &unnamed);
    let resolved = json(r#"{
        "type": "response.function_call_arguments.done", "output_index": 0,
        "item_id": "fc_candidate", "call_id": "call_candidate", "name": "weather",
        "arguments": "{}"
    }"#);
    translate(&mut ordinary_accumulator, &mut ordinary_translator, &resolved);
    assert!(ordinary_translator.unfinished_search_item_ids().len() == 0);
}

#[test]
fn upstream_failure_may_terminate_an_incomplete_search_without_false_completion() {
    let mut accumulator = ResponseAccumulator::new("resp_1".to_owned(), None);
    let mut translator =
        FunctionSseTranslator::new(types(&[("tool_search", ToolType::ToolSearch)]));
    let added = &search_event_sequence("fc_search", "call_search", "{}")[0];
    translate(&mut accumulator, &mut translator, added);
    let failed = json(r#"{
        "type": "response.failed",
        "response": {
            "id": "upstream_failed", "status": "failed", "usage": null,
            "error": {"code": "provider_failure", "message": "provider stopped"},
            "incomplete_details": {"reason": "upstream_error"}
        }
    }"#);
    let translated = translate(&mut accumulator, &mut translator, &failed);

    assert_eq!(translated.frames.len(), 1);
    assert_eq!(translated.frames[0].event_type, SSEEventType::ResponseFailed);
    assert!(translator.finish().is_ok());
}

#[test]
fn pending_function_stream_state_has_aggregate_byte_and_call_count_limits() {
    let mut accumulator = ResponseAccumulator::new("resp_1".to_owned(), None);
    let mut translator = FunctionSseTranslator::new(Table::new());
    for output_index in 0..MAX_PENDING_FUNCTION_CALLS {
        let unnamed = json(&format!(
        r#"{{
            "type": "response.output_item.added", "output_index": {},
            "item": {{"id": {}, "type": "function_call",
                "call_id": {}, "arguments": "", "status": "in_progress"}}
        }}"#,
        output_index, quoted(&format!("fc_{output_index}")), quoted(&format!("call_{output_index}"))
    ));
        translate(&mut accumulator, &mut translator, &unnamed);
    }
    let over_count = json(&format!(
        r#"{{
        "type": "response.output_item.added", "output_index": {},
        "item": {{"id": "fc_over", "type": "function_call", "call_id": "call_over",
            "arguments": "", "status": "in_progress"}}
    }}"#,
        MAX_PENDING_FUNCTION_CALLS
    ));
    let count_error = accumulator
        .process_sse_line_with_translator(&sse(&over_count), &mut translator)
        .expect_err("pending call count must be bounded");
    assert!(count_error.message().contains("pending calls"));

    let mut bytes_accumulator = ResponseAccumulator::new("resp_2".to_owned(), None);
    let mut bytes_translator = FunctionSseTranslator::new(Table::new());
    let mut byte_error = None;
    for output_index in 0..MAX_PENDING_FUNCTION_CALLS {
        let unnamed = json(&format!(
        r#"{{
            "type": "response.output_item.added", "output_index": {},
            "item": {{"id": {}, "type": "function_call",
                "call_id": {}, "arguments": "", "status": "in_progress"}}
        }}"#,
        output_index, quoted(&format!("fc_bytes_{output_index}")), quoted(&format!("call_bytes_{output_index}"))
    ));
        if let Err(error) =
            bytes_accumulator.process_sse_line_with_translator(&sse(&unnamed), &mut bytes_translator)
        {
            byte_error = Some(error);
            break;
        }
        let delta = json(&format!(
        r#"{{
            "type": "response.function_call_arguments.delta", "output_index": {},
            "item_id": {}, "delta": {}
        }}"#,
        output_index, quoted(&format!("fc_bytes_{output_index}")), quoted(&"x".repeat(4 * 1024))
    ));
        match bytes_accumulator.process_sse_line_with_translator(&sse(&delta), &mut bytes_translator) {
            Ok(_) => {}
            Err(error) => {
                byte_error = Some(error);
                break;
            }
        }
    }
    assert!(
        byte_error
            .expect("aggregate pending bytes must be bounded")
            .message()
            .contains("unnamed function-call SSE exceeded")
    );

    let mut search_accumulator = ResponseAccumulator::new("resp_search_pending".to_owned(), None);
    let mut search_translator = FunctionSseTranslator::new(types(&[
        ("tool_search", ToolType::ToolSearch),
        ("weather", ToolType::Function),
    ]));
    for output_index in 0..MAX_PENDING_FUNCTION_CALLS {
        let unnamed = json(&format!(
        r#"{{
            "type": "response.output_item.added", "output_index": {},
            "item": {{"id": {}, "type": "function_call",
                "call_id": {}, "arguments": "", "status": "in_progress"}}
        }}"#,
        output_index, quoted(&format!("fc_search_{output_index}")), quoted(&format!("call_search_{output_index}"))
    ));
        translate(&mut search_accumulator, &mut search_translator, &unnamed);
    }
    let over_count = json(&format!(
        r#"{{
        "type": "response.output_item.added", "output_index": {},
        "item": {{"id": "fc_search_over", "type": "function_call", "call_id": "call_search_over",
            "arguments": "", "status": "in_progress"}}
    }}"#,
        MAX_PENDING_FUNCTION_CALLS
    ));
    let error = search_accumulator
        .process_sse_line_with_translator(&sse(&over_count), &mut search_translator)
        .expect_err("search-active pending overflow must use invalid-search classification");
    assert!(error.is_invalid_upstream_tool_search(), "{}", error.message());
}

#[test]
fn tool_search_argument_buffer_accepts_exact_limit_and_rejects_one_more_byte() {
    let prefix = r#"{"query":""#;
    let suffix = r#""}"#;
    let exact_arguments = format!(
        "{prefix}{}{suffix}",
        "x".repeat(MAX_PENDING_FUNCTION_BYTES - prefix.len() - suffix.len())
    );
    assert_eq!(exact_arguments.len(), MAX_PENDING_FUNCTION_BYTES);

    let mut exact_accumulator = ResponseAccumulator::new("resp_exact".to_owned(), None);
    let mut exact_translator =
        FunctionSseTranslator::new(types(&[("tool_search", ToolType::ToolSearch)]));
    let exact_events = search_event_sequence("fc_exact", "call_exact", &exact_arguments);
    translate(&mut exact_accumulator, &mut exact_translator, &exact_events[0]);
    assert!(
        exact_accumulator
            .process_sse_line_with_translator(&sse(&exact_events[1]), &mut exact_translator)
            .is_ok()
    );
    assert!(
        exact_accumulator
            .process_sse_line_with_translator(&sse(&exact_events[2]), &mut exact_translator)
            .is_ok()
    );

    let over_arguments = format!("{exact_arguments}x");
    let mut over_accumulator = ResponseAccumulator::new("resp_over".to_owned(), None);
    let mut over_translator =
        FunctionSseTranslator::new(types(&[("tool_search", ToolType::ToolSearch)]));
    let over_events = search_event_sequence("fc_over", "call_over", &over_arguments);
    translate(&mut over_accumulator, &mut over_translator, &over_events[0]);
    assert!(
        over_accumulator
            .process_sse_line_with_translator(&sse(&over_events[1]), &mut over_translator)
            .is_ok()
    );
    assert!(
        over_accumulator
            .process_sse_line_with_translator(&sse(&over_events[2]), &mut over_translator)
            .expect_err("one byte beyond the search-call limit must fail")
            .message()
            .contains("invalid tool-search call")
    );
}

#[test]
fn custom_function_arguments_are_emitted_incrementally() {
    let mut accumulator = ResponseAccumulator::new("resp_1".to_owned(), None);
    let mut translator = FunctionSseTranslator::new(types(&[("raw_echo", ToolType::Custom)]));
    let mut frames = Vec::new();

    for event in [
        json(r#"{
            "type": "response.output_item.added",
            "output_index": 0,
            "item": {
                "id": "fc_custom",
                "type": "function_call",
                "status": "in_progress",
                "call_id": "call_custom",
                "name": "raw_echo",
                "arguments": ""
            }
        }"#),
        json(r#"{
            "type": "response.function_call_arguments.delta",
            "output_index": 0,
            "item_id": "fc_custom",
            "call_id": "call_custom",
            "delta": "{\"in"
        }"#),
        json(r#"{
            "type": "response.function_call_arguments.delta",
            "output_index": 0,
            "item_id": "fc_custom",
            "call_id": "call_custom",
            "delta": "put\":\"hello "
        }"#),
        json(r#"{
            "type": "response.function_call_arguments.delta",
            "output_index": 0,
            "item_id": "fc_custom",
            "call_id": "call_custom",
            "delta": "world\"}"
        }"#),
        json(r#"{
            "type": "response.function_call_arguments.done",
            "output_index": 0,
            "item_id": "fc_custom",
            "call_id": "call_custom",
            "name": "raw_echo",
            "arguments": "{\"input\":\"hello world\"}"
        }"#),
        json(r#"{
            "type": "response.output_item.done",
            "output_index": 0,
            "item": {
                "id": "fc_custom",
                "type": "function_call",
                "status": "completed",
                "call_id": "call_custom",
                "name": "raw_echo",
                "arguments": "{\"input\":\"hello world\"}"
            }
        }"#),
    ] {
        frames.extend(translate(&mut accumulator, &mut translator, &event).frames);
    }

    assert_eq!(
        frames.iter().map(|frame| frame.event_type).collect::<Vec<_>>(),
        [
            SSEEventType::OutputItemAdded,
            SSEEventType::CustomToolCallInputDelta,
            SSEEventType::CustomToolCallInputDelta,
            SSEEventType::CustomToolCallInputDone,
            SSEEventType::OutputItemDone,
        ]
    );
    assert_eq!(in_wire(&frames[0], &["item", "type"]), Some(&Json::text("custom_tool_call")));
    assert_eq!(in_wire(&frames[1], &["delta"]), Some(&Json::text("hello ")));
    assert_eq!(in_wire(&frames[2], &["delta"]), Some(&Json::text("world")));
    assert_eq!(in_wire(&frames[3], &["input"]), Some(&Json::text("hello world")));
    assert_eq!(in_wire(&frames[4], &["item", "input"]), Some(&Json::text("hello world")));
}

#[test]
fn custom_input_deltas_match_authoritative_done_input() {
    let mut accumulator = ResponseAccumulator::new("resp_1".to_owned(), None);
    let mut translator = FunctionSseTranslator::new(types(&[("raw_echo", ToolType::Custom)]));
    let events = [
        json(r#"{
            "type": "response.output_item.added", "output_index": 0,
            "item": {"id": "fc_1", "type": "function_call", "call_id": "call_1",
                "name": "raw_echo", "arguments": "", "status": "in_progress"}
        }"#),
        json(r#"{
            "type": "response.function_call_arguments.delta", "output_index": 0,
            "item_id": "fc_1", "call_id": "call_1", "delta": "{\"input\":\"hello\""
        }"#),
        json(r#"{
            "type": "response.function_call_arguments.done", "output_index": 0,
            "item_id": "fc_1", "call_id": "call_1", "name": "raw_echo",
            "arguments": "{\"input\":\"hello\",\"extra\":true}"
        }"#),
        json(r#"{
            "type": "response.output_item.done", "output_index": 0,
            "item": {"id": "fc_1", "type": "function_call", "call_id": "call_1",
                "name": "raw_echo", "arguments": "{\"input\":\"hello\",\"extra\":true}", "status": "completed"}
        }"#),
    ];

    let mut frames = Vec::new();
    for event in events {
        frames.extend(translate(&mut accumulator, &mut translator, &event).frames);
    }
    let deltas = frames
        .iter()
        .filter(|frame| frame.event_type == SSEEventType::CustomToolCallInputDelta)
        .filter_map(|frame| in_wire(frame, &["delta"]).and_then(Json::as_str))
        .collect::<String>();
    let done = frames
        .iter()
        .find(|frame| frame.event_type == SSEEventType::CustomToolCallInputDone)
        .and_then(|frame| in_wire(frame, &["input"]).and_then(Json::as_str))
        .expect("input.done");

    assert_eq!(deltas, done);
}

#[test]
fn custom_input_rejects_authoritative_value_that_contradicts_deltas() {
    let mut accumulator = ResponseAccumulator::new("resp_1".to_owned(), None);
    let mut translator = FunctionSseTranslator::new(types(&[("raw_echo", ToolType::Custom)]));
    let events = [
        json(r#"{
            "type": "response.output_item.added", "output_index": 0,
            "item": {"id": "fc_1", "type": "function_call", "call_id": "call_1",
                "name": "raw_echo", "arguments": "", "status": "in_progress"}
        }"#),
        json(r#"{
            "type": "response.function_call_arguments.delta", "output_index": 0,
            "item_id": "fc_1", "call_id": "call_1", "delta": "{\"input\":\"hello\"}"
        }"#),
    ];
    for event in events {
        translate(&mut accumulator, &mut translator, &event);
    }
    let done = json(r#"{
        "type": "response.function_call_arguments.done", "output_index": 0,
        "item_id": "fc_1", "call_id": "call_1", "name": "raw_echo",
        "arguments": "{\"input\":\"bye\"}"
    }"#);

    let error = accumulator
        .process_sse_line_with_translator(&sse(&done), &mut translator)
        .expect_err("contradictory final input must fail");
    assert!(error.message().contains("contradicts streamed custom tool input"));
}

#[test]
fn malformed_custom_input_escape_is_rejected() {
    let mut accumulator = ResponseAccumulator::new("resp_1".to_owned(), None);
    let mut translator = FunctionSseTranslator::new(types(&[("raw_echo", ToolType::Custom)]));
    let added = json(r#"{
        "type": "response.output_item.added", "output_index": 0,
        "item": {"id": "fc_1", "type": "function_call", "call_id": "call_1",
            "name": "raw_echo", "arguments": "", "status": "in_progress"}
    }"#);
    translate(&mut accumulator, &mut translator, &added);
    let delta = json(r#"{
        "type": "response.function_call_arguments.delta", "output_index": 0,
        "item_id": "fc_1", "call_id": "call_1", "delta": "{\"input\":\"\\q"
    }"#);

    let error = accumulator
        .process_sse_line_with_translator(&sse(&delta), &mut translator)
        .expect_err("invalid JSON string escape must fail");
    assert!(error.message().contains("invalid custom tool input"));
}

#[test]
fn custom_input_waits_for_split_unicode_surrogate_pair() {
    let mut accumulator = ResponseAccumulator::new("resp_1".to_owned(), None);
    let mut translator = FunctionSseTranslator::new(types(&[("raw_echo", ToolType::Custom)]));
    let events = [
        json(r#"{
            "type": "response.output_item.added", "output_index": 0,
            "item": {"id": "fc_1", "type": "function_call", "call_id": "call_1",
                "name": "raw_echo", "arguments": "", "status": "in_progress"}
        }"#),
        json(r#"{
            "type": "response.function_call_arguments.delta", "output_index": 0,
            "item_id": "fc_1", "call_id": "call_1", "delta": "{\"input\":\"hi \\uD83D"
        }"#),
        json(r#"{
            "type": "response.function_call_arguments.delta", "output_index": 0,
            "item_id": "fc_1", "call_id": "call_1", "delta": "\\uDE00\"}"
        }"#),
    ];

    let frames = events
        .iter()
        .flat_map(|event| translate(&mut accumulator, &mut translator, event).frames)
        .collect::<Vec<_>>();
    let input = frames
        .iter()
        .filter(|frame| frame.event_type == SSEEventType::CustomToolCallInputDelta)
        .filter_map(|frame| in_wire(frame, &["delta"]).and_then(Json::as_str))
        .collect::<String>();

    assert_eq!(input, "hi 😀");
}

#[test]
fn custom_input_over_limit_is_rejected() {
    let mut accumulator = ResponseAccumulator::new("resp_1".to_owned(), None);
    let mut translator = FunctionSseTranslator::new(types(&[("raw_echo", ToolType::Custom)]));
    let added = json(r#"{
        "type": "response.output_item.added", "output_index": 0,
        "item": {"id": "fc_1", "type": "function_call", "call_id": "call_1",
            "name": "raw_echo", "arguments": "", "status": "in_progress"}
    }"#);
    translate(&mut accumulator, &mut translator, &added);
    let oversized = json(&format!(
        r#"{{
        "type": "response.function_call_arguments.delta", "output_index": 0,
        "item_id": "fc_1", "call_id": "call_1",
        "delta": {}
    }}"#,
        quoted(&format!("{{\"input\":\"{}", "x".repeat(MAX_PENDING_FUNCTION_BYTES + 1)))
    ));

    let error = accumulator
        .process_sse_line_with_translator(&sse(&oversized), &mut translator)
        .expect_err("oversized custom input must fail");
    assert!(error.message().contains("function-call SSE exceeded"));
}

#[test]
fn ordinary_functions_pass_through_unchanged() {
    let mut accumulator = ResponseAccumulator::new("resp_1".to_owned(), None);
    let mut translator = FunctionSseTranslator::new(types(&[("echo", ToolType::Function)]));
    let event = json(r#"{
        "type": "response.output_item.added",
        "output_index": 3,
        "item": {
            "id": "fc_echo",
            "type": "function_call",
            "call_id": "call_echo",
            "name": "echo",
            "arguments": ""
        }
    }"#);

    let translated = translate(&mut accumulator, &mut translator, &event);

    assert_eq!(translated.frames.len(), 1);
    assert_eq!(translated.frames[0].event_type, SSEEventType::OutputItemAdded);
    assert_eq!(in_wire(&translated.frames[0], &["item", "type"]), Some(&Json::text("function_call")));
    assert_eq!(translated.defer_from_output_index, None);
}

#[test]
fn unnamed_function_frames_are_recovered_by_output_index_when_done_changes_id() {
    let mut accumulator = ResponseAccumulator::new("resp_1".to_owned(), None);
    let mut translator = FunctionSseTranslator::new(types(&[("echo", ToolType::Function)]));
    let mut frames = Vec::new();
    let mut defer_boundaries = Vec::new();

    for event in [
        json(r#"{
            "type": "response.output_item.added",
            "output_index": 1,
            "item": {
                "id": "fc_transient",
                "type": "function_call",
                "status": "in_progress",
                "call_id": "call_echo",
                "arguments": ""
            }
        }"#),
        json(r#"{
            "type": "response.function_call_arguments.delta",
            "output_index": 1,
            "item_id": "fc_transient",
            "call_id": "call_echo",
            "delta": "{\"value\":1}"
        }"#),
        json(r#"{
            "type": "response.output_item.done",
            "output_index": 1,
            "item": {
                "id": "fc_stable",
                "type": "function_call",
                "status": "completed",
                "call_id": "call_echo",
                "name": "echo",
                "arguments": "{\"value\":1}"
            }
        }"#),
    ] {
        let translated = translate(&mut accumulator, &mut translator, &event);
        defer_boundaries.push(translated.defer_from_output_index);
        frames.extend(translated.frames);
    }

    assert_eq!(
        frames.iter().map(|frame| frame.event_type).collect::<Vec<_>>(),
        [
            SSEEventType::OutputItemAdded,
            SSEEventType::FunctionCallArgumentsDelta,
            SSEEventType::OutputItemDone,
        ]
    );
    assert_eq!(in_wire(&frames[0], &["item", "id"]), Some(&Json::text("fc_transient")));
    assert_eq!(in_wire(&frames[1], &["item_id"]), Some(&Json::text("fc_transient")));
    assert_eq!(in_wire(&frames[2], &["item", "id"]), Some(&Json::text("fc_stable")));
    assert_eq!(defer_boundaries, [Some(1), Some(1), None]);
}

#[test]
fn parallel_unnamed_functions_with_empty_ids_remain_distinct() {
    let mut accumulator = ResponseAccumulator::new("resp_1".to_owned(), None);
    let mut translator = FunctionSseTranslator::new(types(&[
        ("first", ToolType::Function),
        ("second", ToolType::Function),
    ]));
    let events = [
        json(r#"{
            "type": "response.output_item.added", "output_index": 0,
            "item": {"id": "", "type": "function_call", "arguments": ""}
        }"#),
        json(r#"{
            "type": "response.output_item.added", "output_index": 1,
            "item": {"id": "", "type": "function_call", "arguments": ""}
        }"#),
        json(r#"{
            "type": "response.function_call_arguments.delta", "output_index": 0,
            "item_id": "", "delta": "{\"value\":\"a\"}"
        }"#),
        json(r#"{
            "type": "response.function_call_arguments.delta", "output_index": 1,
            "item_id": "", "delta": "{\"value\":\"b\"}"
        }"#),
        json(r#"{
            "type": "response.output_item.done", "output_index": 0,
            "item": {"id": "fc_first", "type": "function_call", "call_id": "call_first",
                "name": "first", "arguments": "{\"value\":\"a\"}", "status": "completed"}
        }"#),
        json(r#"{
            "type": "response.output_item.done", "output_index": 1,
            "item": {"id": "fc_second", "type": "function_call", "call_id": "call_second",
                "name": "second", "arguments": "{\"value\":\"b\"}", "status": "completed"}
        }"#),
    ];

    let mut frames = Vec::new();
    for event in events {
        frames.extend(translate(&mut accumulator, &mut translator, &event).frames);
    }

    assert_eq!(
        frames
            .iter()
            .filter(|frame| frame.event_type == SSEEventType::OutputItemAdded)
            .count(),
        2
    );
    assert_eq!(
        frames
            .iter()
            .filter(|frame| frame.event_type == SSEEventType::OutputItemDone)
            .count(),
        2
    );
}

#[test]
fn parallel_named_custom_functions_with_empty_ids_remain_distinct() {
    let mut accumulator = ResponseAccumulator::new("resp_1".to_owned(), None);
    let mut translator = FunctionSseTranslator::new(types(&[
        ("first", ToolType::Custom),
        ("second", ToolType::Custom),
    ]));
    let events = [
        json(r#"{
            "type": "response.output_item.added", "output_index": 0,
            "item": {"id": "", "type": "function_call", "call_id": "call_first",
                "name": "first", "arguments": "", "status": "in_progress"}
        }"#),
        json(r#"{
            "type": "response.output_item.added", "output_index": 1,
            "item": {"id": "", "type": "function_call", "call_id": "call_second",
                "name": "second", "arguments": "", "status": "in_progress"}
        }"#),
        json(r#"{
            "type": "response.function_call_arguments.delta", "output_index": 0,
            "item_id": "", "call_id": "call_first", "delta": "{\"input\":\"a\"}"
        }"#),
        json(r#"{
            "type": "response.function_call_arguments.delta", "output_index": 1,
            "item_id": "", "call_id": "call_second", "delta": "{\"input\":\"b\"}"
        }"#),
    ];

    let frames = events
        .iter()
        .flat_map(|event| translate(&mut accumulator, &mut translator, event).frames)
        .collect::<Vec<_>>();
    let deltas = frames
        .iter()
        .filter(|frame| frame.event_type == SSEEventType::CustomToolCallInputDelta)
        .map(|frame| (frame.wire.output_index, in_wire(frame, &["delta"]).and_then(Json::as_str)))
        .collect::<Vec<_>>();

    assert_eq!(deltas, [(Some(0), Some("a")), (Some(1), Some("b"))]);
}

#[test]
fn unnamed_custom_function_with_empty_id_uses_one_public_id() {
    let mut accumulator = ResponseAccumulator::new("resp_1".to_owned(), None);
    let mut translator = FunctionSseTranslator::new(types(&[("raw_echo", ToolType::Custom)]));
    let events = [
        json(r#"{
            "type": "response.output_item.added", "output_index": 0,
            "item": {"id": "", "type": "function_call", "call_id": "call_1", "arguments": ""}
        }"#),
        json(r#"{
            "type": "response.function_call_arguments.delta", "output_index": 0,
            "item_id": "", "call_id": "call_1", "delta": "{\"input\":\"hello\"}"
        }"#),
        json(r#"{
            "type": "response.function_call_arguments.done", "output_index": 0,
            "item_id": "", "call_id": "call_1", "name": "raw_echo",
            "arguments": "{\"input\":\"hello\"}"
        }"#),
    ];

    let frames = events
        .iter()
        .flat_map(|event| translate(&mut accumulator, &mut translator, event).frames)
        .collect::<Vec<_>>();
    let added_id = frames
        .iter()
        .find(|frame| frame.event_type == SSEEventType::OutputItemAdded)
        .and_then(|frame| in_wire(frame, &["item", "id"]).and_then(Json::as_str))
        .expect("custom item id");
    let lifecycle_ids = frames
        .iter()
        .filter(|frame| {
            matches!(
                frame.event_type,
                SSEEventType::CustomToolCallInputDelta | SSEEventType::CustomToolCallInputDone
            )
        })
        .filter_map(|frame| in_wire(frame, &["item_id"]).and_then(Json::as_str))
        .collect::<Vec<_>>();

    assert_eq!(lifecycle_ids, [added_id, added_id]);
}

#[test]
fn gateway_owned_functions_are_suppressed_and_mark_the_defer_boundary() {
    let mut accumulator = ResponseAccumulator::new("resp_1".to_owned(), None);
    let mut translator =
        FunctionSseTranslator::new(types(&[("web_search", ToolType::WebSearch)]));
    let added = json(r#"{
        "type": "response.output_item.added",
        "output_index": 2,
        "item": {
            "id": "fc_search",
            "type": "function_call",
            "call_id": "call_search",
            "name": "web_search",
            "arguments": ""
        }
    }"#);
    let delta = json(r#"{
        "type": "response.function_call_arguments.delta",
        "output_index": 2,
        "item_id": "fc_search",
        "call_id": "call_search",
        "delta": "{}"
    }"#);

    let added = translate(&mut accumulator, &mut translator, &added);
    let delta = translate(&mut accumulator, &mut translator, &delta);

    assert!(added.frames.is_empty());
    assert_eq!(added.defer_from_output_index, Some(2));
    assert!(delta.frames.is_empty());
    assert_eq!(delta.defer_from_output_index, Some(2));
}
