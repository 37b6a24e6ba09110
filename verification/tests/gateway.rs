//! What clients of the gateway send and are sent.
use agentic_core::gateway::{
    client_auth, conversation_json, extract_bearer, health_url, read_ws_request, route,
    with_kept_conversation, ws_line, ClientMessage, IdleReaction, Route, StreamReaction, WsAction,
    WsError, WsEvent, WsLine, WsRefusal, WsStream,
};
use agentic_core::items::OutputItem;
use agentic_core::json::{Json, JsonNumber};
use agentic_core::payload::RequestPayload;
use agentic_core::request::RequestContext;
use agentic_core::upstream::RequestIds;
use agentic_core::wire::FromJson;

fn json(text: &str) -> Json {
    Json::parse(text).expect("valid JSON")
}

fn request(text: &str) -> RequestPayload {
    RequestPayload::from_json(&json(text)).expect("a request")
}

fn ids() -> RequestIds {
    RequestIds {
        response_id: "resp_gateway".to_owned(),
        previous_response_id: Some("resp_before".to_owned()),
        conversation_id: None,
    }
}

fn context(store: bool) -> RequestContext {
    let request = request(&format!(r#"{{"model": "test", "input": "hi", "store": {store}}}"#));
    RequestContext {
        original_request: request.clone(),
        enriched_request: request,
        ids: ids(),
        tool_search_loaded_tools: None,
        tool_search_state: None,
        tool_search_private_request: None,
    }
}

#[test]
fn errors_of_the_client_are_told_and_others_end_the_connection() {
    let told = WsError::InvalidJson("expected value".to_owned());
    assert_eq!(told.status(), 400);
    assert_eq!(
        told.to_ws_frame(),
        Some(json(
            r#"{"type": "error", "status": 400, "error": {
                "message": "invalid JSON: expected value",
                "type": "invalid_json", "code": "invalid_json"}}"#
        ))
    );
    assert_eq!(WsError::UnexpectedType.status(), 400);
    assert_eq!(WsError::BinaryFrame.code(), "invalid_request_error");
    assert!(WsError::ConcurrentMessage.to_ws_frame().is_some());

    let failed = WsError::Executor {
        status: 502,
        code: "upstream_error".to_owned(),
        message: "no answer".to_owned(),
    };
    assert_eq!(failed.status(), 502);
    assert_eq!(failed.code(), "upstream_error");
    assert_eq!(failed.message(), "no answer");
    assert!(failed.to_ws_frame().is_some());

    for silent in [
        WsError::SerializeJson("x".to_owned()),
        WsError::SendFailed,
        WsError::ClientDisconnected,
        WsError::Shutdown,
        WsError::Receive("x".to_owned()),
    ] {
        assert_eq!(silent.to_ws_frame(), None);
        assert_eq!(silent.status(), 500);
    }
}

#[test]
fn messages_are_handled_one_at_a_time() {
    let text = ClientMessage::Text("{}".to_owned());
    assert_eq!(text.when_idle(), IdleReaction::Handle("{}".to_owned()));
    assert_eq!(text.while_streaming(), StreamReaction::Fail(WsError::ConcurrentMessage));
    assert_eq!(ClientMessage::Binary.when_idle(), IdleReaction::Refuse(WsError::BinaryFrame));
    assert_eq!(
        ClientMessage::Binary.while_streaming(),
        StreamReaction::Fail(WsError::BinaryFrame)
    );
    assert_eq!(ClientMessage::Ping.when_idle(), IdleReaction::Answer);
    assert_eq!(ClientMessage::Ping.while_streaming(), StreamReaction::Answer);
    assert_eq!(ClientMessage::Pong.when_idle(), IdleReaction::Ignore);
    assert_eq!(ClientMessage::Pong.while_streaming(), StreamReaction::Ignore);
    assert_eq!(ClientMessage::Close.when_idle(), IdleReaction::Stop);
    assert_eq!(ClientMessage::Failed("x".to_owned()).when_idle(), IdleReaction::Stop);
    assert_eq!(
        ClientMessage::Ended.while_streaming(),
        StreamReaction::Fail(WsError::ClientDisconnected)
    );
    assert_eq!(
        ClientMessage::Failed("x".to_owned()).while_streaming(),
        StreamReaction::Fail(WsError::Receive("x".to_owned()))
    );
}

#[test]
fn a_message_must_ask_for_a_response() {
    let request =
        read_ws_request(r#"{"type": "response.create", "model": "test", "input": "hi"}"#, "")
            .unwrap();
    assert_eq!(request.model, "test");
    assert!(request.stream);
    assert_eq!(
        read_ws_request("{nope", "").unwrap_err(),
        WsRefusal::InvalidJson("key must be a string at line 1 column 2".to_owned())
    );
    assert_eq!(
        read_ws_request(r#"{"type": "response.cancel"}"#, "").unwrap_err(),
        WsRefusal::UnexpectedType
    );
    assert_eq!(
        read_ws_request(
            r#"{"type": "response.create", "model": 7}"#,
            "invalid type: integer `7`, expected a string"
        )
        .unwrap_err(),
        WsRefusal::InvalidPayload("invalid type: integer `7`, expected a string".to_owned())
    );
}

#[test]
fn lines_are_sent_under_the_gateways_ids() {
    let line = r#"data: {"type":"response.created","response":{"id":"resp_upstream"}}"#;
    let WsLine::Send(sent) = ws_line(line, &ids()) else {
        panic!("expected an event");
    };
    assert_eq!(sent.get("response").unwrap().get_str("id"), Some("resp_gateway"));
    assert_eq!(
        sent.get("response").unwrap().get_str("previous_response_id"),
        Some("resp_before")
    );
    assert_eq!(ws_line("data: [DONE]", &ids()), WsLine::Skip);
    assert_eq!(ws_line(": comment", &ids()), WsLine::Skip);
    assert_eq!(
        ws_line("data: {", &ids()),
        WsLine::Invalid("EOF while parsing an object at line 1 column 1".to_owned())
    );
}

#[test]
fn a_kept_stream_comes_to_a_response() {
    let lines = [
        r#"data: {"type":"response.created","response":{"id":"resp_upstream"}}"#,
        r#"data: {"type":"response.output_item.added","output_index":0,"item":{"id":"msg_1","type":"message"}}"#,
        r#"data: {"type":"response.output_text.delta","delta":"Hi","item_id":"msg_1","output_index":0}"#,
        r#"data: {"type":"response.completed","response":{"id":"resp_upstream","status":"completed"}}"#,
        "data: [DONE]",
    ];
    let mut stream = WsStream::new(&context(true));
    for line in lines {
        stream.take_line(line);
    }
    assert_eq!(stream.lines.len(), 4);
    let payload = stream.finish("test", None).expect("a response");
    assert_eq!(payload.id, "resp_gateway");
    assert_eq!(payload.status, "completed");
    assert!(matches!(&payload.output[0], OutputItem::Message(m) if m.content[0].text == "Hi"));

    let mut forgotten = context(false);
    forgotten.ids.previous_response_id = None;
    let mut stream = WsStream::new(&forgotten);
    stream.take_line(lines[0]);
    assert!(stream.lines.is_empty());
    assert!(stream.finish("test", None).is_none());
}

#[test]
fn only_what_is_kept_is_executed() {
    assert_eq!(route(r#"{"store": false}"#), Route::Proxy);
    assert_eq!(route(r#"{"store": true}"#), Route::Execute);
    assert_eq!(route(r#"{"store": "no"}"#), Route::Execute);
    assert_eq!(route("{}"), Route::Execute);
    assert_eq!(route("not json"), Route::Execute);
}

#[test]
fn tokens_come_from_the_request_first() {
    assert_eq!(extract_bearer(Some("Bearer abc")).as_deref(), Some("abc"));
    assert_eq!(extract_bearer(Some("Bearer ")), None);
    assert_eq!(extract_bearer(Some("Basic abc")), None);
    assert_eq!(extract_bearer(None), None);
    let configured = Some("configured".to_owned());
    assert_eq!(client_auth(Some("own".to_owned()), &configured).as_deref(), Some("own"));
    assert_eq!(client_auth(None, &configured).as_deref(), Some("configured"));
}

#[test]
fn a_conversation_counts_only_where_the_response_is_kept() {
    let mut kept = request(r#"{"model": "test", "input": "hi", "store": true}"#);
    kept.conversation_id = Some("conv_1".to_owned());
    let mut forgotten = request(r#"{"model": "test", "input": "hi", "store": false}"#);
    forgotten.conversation_id = Some("conv_1".to_owned());
    assert_eq!(with_kept_conversation(kept).conversation_id.as_deref(), Some("conv_1"));
    assert_eq!(with_kept_conversation(forgotten).conversation_id, None);
    assert_eq!(
        conversation_json("conv_1", 7),
        json(r#"{"id": "conv_1", "created_at": 7, "object": "conversation", "metadata": {}}"#)
    );
    assert_eq!(
        conversation_json("conv_1", -7).get("created_at"),
        Some(&Json::Number(JsonNumber::from_i64(-7)))
    );
    assert_eq!(health_url("http://localhost:8000//"), "http://localhost:8000/health");
}

#[test]
fn a_stream_goes_on_until_something_ends_it() {
    let mut stream = WsStream::new(&context(true));
    let line = r#"data: {"type":"response.created","response":{"id":"resp_upstream"}}"#;
    let WsAction::Send(sent) = stream.step(&WsEvent::Line(line.to_owned())) else {
        panic!("expected an event");
    };
    assert_eq!(sent.get("response").unwrap().get_str("id"), Some("resp_gateway"));
    assert_eq!(stream.lines, [line.to_owned()]);
    assert_eq!(stream.step(&WsEvent::Line("data: [DONE]".to_owned())), WsAction::Wait);
    assert_eq!(
        stream.step(&WsEvent::Line("data: {".to_owned())),
        WsAction::Invalid("EOF while parsing an object at line 1 column 1".to_owned())
    );
    assert_eq!(stream.step(&WsEvent::Client(ClientMessage::Ping)), WsAction::Answer);
    assert_eq!(stream.step(&WsEvent::Client(ClientMessage::Pong)), WsAction::Wait);
    assert_eq!(
        stream.step(&WsEvent::Client(ClientMessage::Text("{}".to_owned()))),
        WsAction::Fail(WsError::ConcurrentMessage)
    );
    assert_eq!(stream.step(&WsEvent::Shutdown), WsAction::Fail(WsError::Shutdown));
    let broken = WsError::Receive("x".to_owned());
    assert_eq!(stream.step(&WsEvent::Broken(broken.clone())), WsAction::Fail(broken));
    assert_eq!(stream.step(&WsEvent::Ended), WsAction::Finish);
    assert_eq!(stream.lines.len(), 1);
}
