//! Requests with deferred tools: what the model is shown and what is refused.
use agentic_core::items::{InputItem, ResponsesInput};
use agentic_core::json::Json;
use agentic_core::payload::RequestPayload;
use agentic_core::request::{prepare_tool_search, RequestContext};
use agentic_core::search::ToolSearchState;
use agentic_core::tools::ResponsesTool;
use agentic_core::upstream::RequestIds;
use agentic_core::wire::{FromJson, ToJson};

fn json(text: &str) -> Json {
    Json::parse(text).expect("valid JSON")
}

const SEARCH: &str = r#"{"type": "tool_search", "execution": "client", "description": "Find a tool.",
    "parameters": {"type": "object"}}"#;

const DEFERRED: &str = r#"{"type": "function", "name": "weather", "description": " Weather by city ",
    "parameters": {"type": "object"}, "defer_loading": true}"#;

fn request(tools: &[&str], input: &str) -> RequestPayload {
    let text = format!(
        r#"{{"model": "test", "parallel_tool_calls": false, "tools": [{}], "input": {input}}}"#,
        tools.join(", ")
    );
    RequestPayload::from_json(&json(&text)).expect("a request")
}

fn searched(tool: &str) -> String {
    format!(
        r#"[{{"type": "tool_search_call", "id": "tsc_1", "call_id": "call_1", "arguments": {{"query": "w"}}}},
            {{"type": "tool_search_output", "call_id": "call_1", "tools": [{tool}]}}]"#
    )
}

fn tool_names(tools: &[ResponsesTool]) -> Vec<String> {
    tools
        .iter()
        .map(|tool| match tool {
            ResponsesTool::Function(function) => function.name.clone(),
            other => format!("{other:?}"),
        })
        .collect()
}

#[test]
fn deferred_functions_are_catalogued_but_not_shown() {
    let request = request(&[SEARCH, DEFERRED], r#""hi""#);
    let state = ToolSearchState::build(&request).unwrap();
    assert!(state.is_active());
    assert!(state.withheld_function_names().contains(&"weather".to_owned()));
    assert_eq!(
        state.synthetic_function().unwrap().description.as_deref(),
        Some("Find a tool. Available catalog entry: weather — Weather by city.")
    );
    let private = state.private_inference_request(&request).unwrap();
    assert_eq!(tool_names(private.tools.as_deref().unwrap()), ["tool_search"]);
}

#[test]
fn loaded_functions_are_shown() {
    let request = request(&[SEARCH, DEFERRED], &searched(DEFERRED));
    let state = ToolSearchState::build(&request).unwrap();
    assert!(!state.withheld_function_names().contains(&"weather".to_owned()));
    assert_eq!(tool_names(state.loaded_public_tools()), ["weather"]);
    let private = state.private_inference_request(&request).unwrap();
    assert_eq!(tool_names(private.tools.as_deref().unwrap()), ["tool_search", "weather"]);
    let ResponsesInput::Items(items) = &private.input else {
        panic!("expected items");
    };
    assert_eq!(items.len(), 2);
    assert!(matches!(&items[0], InputItem::FunctionCall(call) if call.name == "tool_search"));
    assert!(matches!(&items[1], InputItem::FunctionCallOutput(output) if output.call_id == "call_1"));
    assert!(items[1].to_json().to_text().contains("weather"));
}

#[test]
fn histories_must_pair_calls_and_outputs() {
    let call = r#"{"type": "tool_search_call", "id": "tsc_1", "call_id": "call_1", "arguments": {}}"#;
    let output = r#"{"type": "tool_search_output", "call_id": "call_1", "tools": []}"#;
    let other = r#"{"type": "tool_search_output", "call_id": "call_2", "tools": []}"#;
    for (input, reason) in [
        (format!("[{call}]"), "unresolved"),
        (format!("[{output}]"), "orphan tool_search_output"),
        (format!("[{call}, {other}]"), "does not match"),
        (format!("[{call}, {call}]"), "duplicate tool_search_call item id"),
        (format!("[{call}, {output}, {output}]"), "duplicate tool_search_output call_id"),
    ] {
        let error = ToolSearchState::build(&request(&[SEARCH], &input)).err().unwrap();
        assert!(error.message().contains(reason), "{reason}: {}", error.message());
    }
    let early = r#"[{"type": "function_call", "call_id": "c", "name": "weather", "arguments": "{}"}]"#;
    let error = ToolSearchState::build(&request(&[SEARCH, DEFERRED], early)).err().unwrap();
    assert!(error.message().contains("before its definition is loaded"));
}

#[test]
fn definitions_that_disagree_are_refused() {
    let changed = r#"{"type": "function", "name": "weather", "description": "Other",
        "defer_loading": true}"#;
    let request = request(&[SEARCH, DEFERRED], &searched(changed));
    let error = ToolSearchState::build(&request).err().unwrap();
    assert!(error.message().contains("weather"), "{}", error.message());
}

#[test]
fn a_choice_must_be_shown() {
    let mut request = request(&[SEARCH, DEFERRED], r#""hi""#);
    request.tool_choice = Some(agentic_core::tools::ToolChoice::Function {
        namespace: None,
        name: "weather".to_owned(),
    });
    assert!(ToolSearchState::build(&request)
        .and_then(|state| state.private_inference_request(&request))
        .is_err());
}

#[test]
fn requests_without_search_stay_as_they_are() {
    let request = request(&[r#"{"type": "function", "name": "a"}"#], r#""hi""#);
    let mut context = RequestContext {
        original_request: request.clone(),
        enriched_request: request.clone(),
        ids: RequestIds {
            response_id: "resp_1".to_owned(),
            previous_response_id: None,
            conversation_id: None,
        },
        tool_search_loaded_tools: None,
        tool_search_state: None,
        tool_search_private_request: None,
    };
    prepare_tool_search(&mut context).unwrap();
    assert!(!context.tool_search_state.as_ref().unwrap().is_active());
    assert!(context.tool_search_private_request.is_none());

    context.enriched_request = self::request(&[SEARCH, DEFERRED], r#""hi""#);
    prepare_tool_search(&mut context).unwrap();
    assert!(context.tool_search_state.as_ref().unwrap().is_active());
    assert!(context.tool_search_private_request.is_some());

    context.enriched_request = self::request(&[SEARCH, SEARCH], r#""hi""#);
    assert!(prepare_tool_search(&mut context).is_err());
}

#[test]
fn a_summary_tells_counts_only() {
    let request = request(&[SEARCH, DEFERRED], r#""hi""#);
    let state = ToolSearchState::build(&request).unwrap();
    assert_eq!(
        state.summary(),
        "ToolSearchState { activity: Active, active: true, public_effective_tool_count: 2, private_upstream_tool_count: 1, \
         loaded_public_tool_count: 0, has_private_upstream_input: true, has_synthetic_function: true, \
         withheld_function_count: 1, mcp_load_count: 0, unqualified_history_call_count: 0 }"
    );
}

#[test]
fn equal_numbers_make_equal_definitions() {
    let declared = r#"{"type": "function", "name": "weather", "parameters": {"minimum": 0.0},
        "defer_loading": true}"#;
    let returned = r#"{"type": "function", "name": "weather", "parameters": {"minimum": -0.0},
        "defer_loading": true}"#;
    assert!(ToolSearchState::build(&request(&[SEARCH, declared], &searched(returned))).is_ok());
    let other = returned.replace("-0.0", "1.0");
    assert!(ToolSearchState::build(&request(&[SEARCH, declared], &searched(&other))).is_err());
}

#[test]
fn a_definition_that_is_returned_twice_is_loaded_once() {
    let input = format!(
        r#"[{{"type": "tool_search_call", "id": "tsc_1", "call_id": "call_1", "arguments": {{}}}},
            {{"type": "tool_search_output", "call_id": "call_1", "tools": [{DEFERRED}]}},
            {{"type": "tool_search_call", "id": "tsc_2", "call_id": "call_2", "arguments": {{}}}},
            {{"type": "tool_search_output", "call_id": "call_2", "tools": [{DEFERRED}]}}]"#
    );
    let state = ToolSearchState::build(&request(&[SEARCH, DEFERRED], &input)).unwrap();
    assert_eq!(state.loaded_public_tools().len(), 1);
}

#[test]
fn the_model_is_shown_custom_calls_of_a_searched_history_as_function_calls() {
    let input = r#"[{"type": "custom_tool_call", "id": "ctc_1", "call_id": "call_c", "name": "raw", "input": "x"},
        {"type": "message", "role": "user", "content": "hi"}]"#;
    let request = request(&[SEARCH, DEFERRED], input);
    let state = ToolSearchState::build(&request).unwrap();
    let private = state.private_inference_request(&request).unwrap();
    let ResponsesInput::Items(items) = &private.input else {
        panic!("expected items");
    };
    let InputItem::FunctionCall(call) = &items[0] else {
        panic!("expected a function call");
    };
    assert_eq!(call.arguments, r#"{"input":"x"}"#);
}
