//! A model's stream as it is passed on: what is hidden, held back and shown as a search.
use agentic_core::events::normalize_sse_line;
use agentic_core::executors::GatewayExecutors;
use agentic_core::json::{Json, JsonNumber};
use agentic_core::registry::ToolRegistry;
use agentic_core::tables::Table;
use agentic_core::tools::ResponsesTool;
use agentic_core::upstream::{
    blocking_payload, declares_client_search, upstream_failure, RequestIds, StreamRound,
    StreamRules, UpstreamStream,
};
use agentic_core::wire::FromJson;

fn json(text: &str) -> Json {
    Json::parse(text).expect("valid JSON")
}

fn number(n: u64) -> Json {
    Json::Number(JsonNumber::from_u64(n))
}

fn at<'a>(value: &'a Json, path: &[&str]) -> Option<&'a Json> {
    let mut here = value;
    for key in path {
        here = match here {
            Json::Array(items) => items.get(key.parse::<usize>().ok()?)?,
            other => other.get(key)?,
        };
    }
    Some(here)
}

fn emitted_events(stream: &mut UpstreamStream) -> Vec<Json> {
    stream.take_sent().iter().map(|frame| frame.wire.to_json()).collect()
}

fn ids() -> RequestIds {
    RequestIds {
        response_id: "resp_gateway".to_owned(),
        previous_response_id: None,
        conversation_id: None,
    }
}

fn stream_rules(tools: &Vec<ResponsesTool>, output_offset: u64) -> StreamRules {
    StreamRules {
        ids: ids(),
        restore_search: declares_client_search(tools),
        loaded_namespaces: Table::new(),
        output_offset,
    }
}

fn client_tool_search_fixture() -> (Vec<ResponsesTool>, ToolRegistry) {
    let mut tools = vec![ResponsesTool::from_json(&json(
        r#"{
            "type": "tool_search",
            "execution": "client",
            "description": "Search deferred tools",
            "parameters": {
                "type": "object",
                "properties": {"query": {"type": "string"}},
                "required": ["query"]
            }
        }"#,
    ))
    .expect("a declaration")];
    let mut executors = GatewayExecutors::default();
    let registry =
        ToolRegistry::build_with_handlers(&mut tools, &mut executors).expect("valid registry");
    (tools, registry)
}

#[test]
fn fallback_stream_emits_only_canonical_tool_search_lifecycle() {
    let (tools, registry) = client_tool_search_fixture();

    let cases = [
        [
            r#"data: {"type":"response.output_item.added","output_index":2,"item":{"id":"fc_search","type":"function_call","call_id":"call_search","name":"tool_search","status":"in_progress","arguments":""}}"#,
            r#"data: {"type":"response.function_call_arguments.delta","item_id":"fc_search","output_index":2,"call_id":"call_search","delta":"{\"query\":\"shell\"}"}"#,
            r#"data: {"type":"response.function_call_arguments.done","item_id":"fc_search","output_index":2,"call_id":"call_search","name":"tool_search","arguments":"{\"query\":\"shell\"}"}"#,
            r#"data: {"type":"response.output_item.done","output_index":2,"item":{"id":"fc_search","type":"function_call","call_id":"call_search","name":"tool_search","status":"completed","arguments":"{\"query\":\"shell\"}"}}"#,
        ],
        [
            r#"data: {"type":"response.output_item.added","output_index":2,"item":{"id":"fc_search","type":"function_call","call_id":"call_search"}}"#,
            r#"data: {"type":"response.function_call_arguments.delta","item_id":"fc_search","output_index":2,"call_id":"call_search","delta":"{\"query\":"}"#,
            r#"data: {"type":"response.function_call_arguments.done","item_id":"fc_search","output_index":2,"call_id":"call_search","name":"tool_search","arguments":"{\"query\":\"shell\"}"}"#,
            r#"data: {"type":"response.output_item.done","output_index":2,"item":{"id":"fc_search","type":"function_call","call_id":"call_search","name":"tool_search","status":"completed","arguments":"{\"query\":\"shell\"}"}}"#,
        ],
    ];

    for lines in cases {
        let rules = stream_rules(&tools, 4);
        let mut stream = UpstreamStream::new(0);

        for line in lines {
            let frame = normalize_sse_line(line).expect("valid upstream SSE event");
            stream.accept(frame, &registry, &rules);
        }

        assert!(stream.deferred.is_empty());
        let mut sent = emitted_events(&mut stream);
        let added = sent.remove(0);
        assert_eq!(at(&added, &["type"]), Some(&Json::text("response.output_item.added")));
        assert_eq!(at(&added, &["sequence_number"]), Some(&number(0)));
        assert_eq!(at(&added, &["output_index"]), Some(&number(6)));
        assert_eq!(at(&added, &["item", "type"]), Some(&Json::text("tool_search_call")));
        assert_eq!(at(&added, &["item", "execution"]), Some(&Json::text("client")));
        assert_eq!(at(&added, &["item", "call_id"]), Some(&Json::text("call_search")));
        assert_eq!(at(&added, &["item", "status"]), Some(&Json::text("in_progress")));
        assert_eq!(at(&added, &["item", "arguments"]), Some(&json(r#"{}"#)));
        assert!(at(&added, &["item", "id"]).is_none());
        assert!(at(&added, &["item", "name"]).is_none());

        let done = sent.remove(0);
        assert_eq!(at(&done, &["type"]), Some(&Json::text("response.output_item.done")));
        assert_eq!(at(&done, &["sequence_number"]), Some(&number(1)));
        assert_eq!(at(&done, &["output_index"]), Some(&number(6)));
        assert_eq!(at(&done, &["item", "type"]), Some(&Json::text("tool_search_call")));
        assert_eq!(at(&done, &["item", "execution"]), Some(&Json::text("client")));
        assert_eq!(at(&done, &["item", "call_id"]), Some(&Json::text("call_search")));
        assert_eq!(at(&done, &["item", "status"]), Some(&Json::text("completed")));
        assert_eq!(at(&done, &["item", "arguments", "query"]), Some(&Json::text("shell")));
        assert!(at(&done, &["item", "id"]).is_none());
        assert!(at(&done, &["item", "name"]).is_none());
        assert!(sent.is_empty());
    }
}

#[test]
fn malformed_known_tool_search_without_call_id_passes_through() {
    let (tools, registry) = client_tool_search_fixture();
    let cases = [
        [
            r#"data: {"type":"response.output_item.added","output_index":2,"item":{"id":"fc_search","type":"function_call","name":"tool_search","status":"in_progress","arguments":""}}"#,
            r#"data: {"type":"response.function_call_arguments.delta","item_id":"fc_search","output_index":2,"delta":"{\"query\":"}"#,
            r#"data: {"type":"response.function_call_arguments.done","item_id":"fc_search","output_index":2,"name":"tool_search","arguments":"{\"query\":\"shell\"}"}"#,
            r#"data: {"type":"response.output_item.done","output_index":2,"item":{"id":"fc_search","type":"function_call","name":"tool_search","status":"completed","arguments":"{\"query\":\"shell\"}"}}"#,
        ],
        [
            r#"data: {"type":"response.output_item.added","output_index":2,"item":{"id":"fc_search","type":"function_call","call_id":"","name":"tool_search","status":"in_progress","arguments":""}}"#,
            r#"data: {"type":"response.function_call_arguments.delta","item_id":"fc_search","output_index":2,"call_id":"","delta":"{\"query\":"}"#,
            r#"data: {"type":"response.function_call_arguments.done","item_id":"fc_search","output_index":2,"call_id":"","name":"tool_search","arguments":"{\"query\":\"shell\"}"}"#,
            r#"data: {"type":"response.output_item.done","output_index":2,"item":{"id":"fc_search","type":"function_call","call_id":"","name":"tool_search","status":"completed","arguments":"{\"query\":\"shell\"}"}}"#,
        ],
    ];

    for lines in cases {
        let rules = stream_rules(&tools, 0);
        let mut stream = UpstreamStream::new(0);

        for line in lines {
            let frame = normalize_sse_line(line).expect("valid upstream SSE event");
            stream.accept(frame, &registry, &rules);
        }

        let emitted = emitted_events(&mut stream);
        assert_eq!(at(&emitted[0], &["type"]), Some(&Json::text("response.output_item.added")));
        assert_eq!(at(&emitted[0], &["item", "type"]), Some(&Json::text("function_call")));
        assert_eq!(at(&emitted[1], &["type"]), Some(&Json::text("response.function_call_arguments.delta")));
        assert_eq!(at(&emitted[2], &["type"]), Some(&Json::text("response.function_call_arguments.done")));
        assert_eq!(at(&emitted[3], &["type"]), Some(&Json::text("response.output_item.done")));
        assert_eq!(at(&emitted[3], &["item", "type"]), Some(&Json::text("function_call")));
        assert_eq!(emitted.len(), 4);
    }
}

#[test]
fn done_only_tool_search_synthesizes_one_added_event() {
    let (tools, registry) = client_tool_search_fixture();
    let rules = stream_rules(&tools, 3);
    let mut stream = UpstreamStream::new(0);
    let line = r#"data: {"type":"response.output_item.done","output_index":2,"item":{"id":"fc_search","type":"function_call","call_id":"call_search","name":"tool_search","status":"completed","arguments":"{\"query\":\"shell\"}"}}"#;

    for _ in 0..2 {
        let frame = normalize_sse_line(line).expect("valid upstream SSE event");
        stream.accept(frame, &registry, &rules);
    }

    let mut sent = emitted_events(&mut stream);
    let added = sent.remove(0);
    assert_eq!(at(&added, &["type"]), Some(&Json::text("response.output_item.added")));
    assert_eq!(at(&added, &["output_index"]), Some(&number(5)));
    assert_eq!(at(&added, &["item", "type"]), Some(&Json::text("tool_search_call")));
    assert_eq!(at(&added, &["item", "call_id"]), Some(&Json::text("call_search")));
    for expected_sequence in [1, 2] {
        let done = sent.remove(0);
        assert_eq!(at(&done, &["type"]), Some(&Json::text("response.output_item.done")));
        assert_eq!(at(&done, &["sequence_number"]), Some(&number(expected_sequence)));
        assert_eq!(at(&done, &["output_index"]), Some(&number(5)));
        assert_eq!(at(&done, &["item", "type"]), Some(&Json::text("tool_search_call")));
    }
    assert!(sent.is_empty());
}

fn mixed_fixture() -> (Vec<ResponsesTool>, ToolRegistry) {
    let mut tools = vec![
        ResponsesTool::from_json(&json(r#"{"type": "function", "name": "echo"}"#)).unwrap(),
        ResponsesTool::from_json(&json(r#"{"type": "web_search_preview"}"#)).unwrap(),
    ];
    let mut executors = GatewayExecutors::from_values(None, None);
    let registry =
        ToolRegistry::build_with_handlers(&mut tools, &mut executors).expect("valid registry");
    (tools, registry)
}

fn accept_all(stream: &mut UpstreamStream, registry: &ToolRegistry, rules: &StreamRules, lines: &[&str]) {
    for line in lines {
        stream.accept(normalize_sse_line(line).expect("an event"), registry, rules);
    }
}

#[test]
fn calls_that_the_gateway_answers_are_hidden_and_hold_back_what_follows() {
    let (tools, registry) = mixed_fixture();
    let rules = stream_rules(&tools, 1);
    let mut stream = UpstreamStream::new(5);
    accept_all(
        &mut stream,
        &registry,
        &rules,
        &[
            r#"data: {"type":"response.output_item.added","output_index":0,"item":{"id":"fc_1","type":"function_call","call_id":"call_1","name":"echo"}}"#,
            r#"data: {"type":"response.output_item.added","output_index":1,"item":{"id":"fc_2","type":"function_call","call_id":"call_2","name":"web_search"}}"#,
            r#"data: {"type":"response.function_call_arguments.delta","item_id":"fc_2","output_index":1,"delta":"{}"}"#,
            r#"data: {"type":"response.output_item.done","output_index":1,"item":{"id":"fc_2","type":"function_call","call_id":"call_2","name":"web_search","arguments":"{}"}}"#,
            r#"data: {"type":"response.output_item.added","output_index":2,"item":{"id":"msg_1","type":"message"}}"#,
            r#"data: {"type":"response.completed","response":{"id":"resp_upstream","status":"completed"}}"#,
        ],
    );
    let sent = emitted_events(&mut stream);
    assert_eq!(sent.len(), 1);
    assert_eq!(at(&sent[0], &["output_index"]), Some(&number(1)));
    assert_eq!(at(&sent[0], &["sequence_number"]), Some(&number(5)));
    assert_eq!(at(&sent[0], &["item", "name"]), Some(&Json::text("echo")));
    assert_eq!(stream.deferred.len(), 1);

    stream.emit_deferred_stream_events(&registry, &rules);
    let late = emitted_events(&mut stream);
    assert_eq!(late.len(), 1);
    assert_eq!(at(&late[0], &["item", "id"]), Some(&Json::text("msg_1")));
    assert_eq!(at(&late[0], &["output_index"]), Some(&number(3)));
    assert_eq!(at(&late[0], &["sequence_number"]), Some(&number(6)));
}

#[test]
fn unnamed_calls_wait_for_their_name() {
    let (tools, registry) = mixed_fixture();
    let rules = stream_rules(&tools, 0);
    let added = r#"data: {"type":"response.output_item.added","output_index":0,"item":{"id":"fc_1","type":"function_call","call_id":"call_1"}}"#;
    let delta = r#"data: {"type":"response.function_call_arguments.delta","item_id":"fc_1","output_index":0,"delta":"{}"}"#;

    let mut shown = UpstreamStream::new(0);
    accept_all(&mut shown, &registry, &rules, &[added, delta]);
    assert!(emitted_events(&mut shown).is_empty());
    accept_all(
        &mut shown,
        &registry,
        &rules,
        &[r#"data: {"type":"response.output_item.done","output_index":0,"item":{"id":"fc_1","type":"function_call","call_id":"call_1","name":"echo","arguments":"{}"}}"#],
    );
    assert_eq!(emitted_events(&mut shown).len(), 3);

    let mut hidden = UpstreamStream::new(0);
    accept_all(
        &mut hidden,
        &registry,
        &rules,
        &[
            added,
            delta,
            r#"data: {"type":"response.output_item.done","output_index":0,"item":{"id":"fc_1","type":"function_call","call_id":"call_1","name":"web_search","arguments":"{}"}}"#,
        ],
    );
    assert!(emitted_events(&mut hidden).is_empty());
}

#[test]
fn whole_bodies_become_responses_under_the_gateways_ids() {
    let body = r#"{"id": "resp_upstream", "status": "completed", "output": []}"#;
    let payload = blocking_payload(body, &ids(), "test", Some("rules".to_owned())).unwrap();
    assert_eq!(payload.id, "resp_gateway");
    assert_eq!(payload.model, "test");
    assert_eq!(payload.instructions.as_deref(), Some("rules"));
    assert_eq!(
        blocking_payload("", &ids(), "test", None).unwrap_err().message(),
        "parse error: EOF while parsing a value at line 1 column 0"
    );
}

#[test]
fn a_round_gathers_the_response_and_keeps_what_waits() {
    let (tools, registry) = mixed_fixture();
    let rules = stream_rules(&tools, 0);
    let mut round = StreamRound::new(&ids(), 0);
    for line in [
        r#"data: {"type":"response.created","response":{"id":"resp_upstream"}}"#,
        r#"data: {"type":"response.output_item.done","output_index":0,"item":{"id":"fc_1","type":"function_call","call_id":"call_1","name":"web_search","arguments":"{}","status":"completed"}}"#,
        r#"data: {"type":"response.output_item.added","output_index":1,"item":{"id":"msg_1","type":"message"}}"#,
        r#"data: {"type":"response.completed","response":{"id":"resp_upstream","status":"completed"}}"#,
    ] {
        round.take_line(line, &registry, &rules);
    }
    let out = round.finish(&ids(), "test", None);
    assert_eq!(out.payload.id, "resp_gateway");
    assert_eq!(out.payload.output.len(), 2);
    assert_eq!(out.deferred_events.len(), 1);
}

#[test]
fn failures_of_the_model_server_are_told_apart() {
    let frame = normalize_sse_line(
        r#"data: {"type":"response.failed","response":{"id":"resp_1","status":"failed","error":{"code":"c","message":"m"},"incomplete_details":{"reason":"r"}}}"#,
    )
    .unwrap();
    let failure = upstream_failure(&frame).expect("a failure");
    assert_eq!(failure.upstream_response_id, "resp_1");
    assert_eq!(failure.error_code, "c");
    assert_eq!(failure.error_message, "m");
    assert_eq!(failure.incomplete_reason, "r");
    let fine = normalize_sse_line(r#"data: {"type":"response.created","response":{"id":"r"}}"#);
    assert!(upstream_failure(&fine.unwrap()).is_none());
}
