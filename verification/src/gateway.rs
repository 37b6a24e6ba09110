//! What the gateway decides at its HTTP and websocket endpoints.
use vstd::prelude::*;

use crate::accumulator::ResponseAccumulator;
#[allow(unused_imports)]
use crate::accumulator::AccumulatorView;
use crate::data::{copy_opt, Data};
use crate::json::{Json, JsonNumber, JsonObject};
#[allow(unused_imports)]
use crate::json::JsonView;
use crate::payload::{RequestPayload, ResponsePayload};
#[allow(unused_imports)]
use crate::payload::{RequestPayloadView, ResponsePayloadView};
use crate::request::RequestContext;
use crate::text::{concat, same_text, strip_prefix, trim, trim_end_matches};
use crate::upstream::{apply_gateway_payload_ids, apply_gateway_response_ids, RequestIds};
#[allow(unused_imports)]
use crate::upstream::RequestIdsView;
use crate::wire::FromJson;

verus! {

/// Why serving a websocket message failed.
#[derive(Debug, Clone, PartialEq)]
pub enum WsError {
    Executor { status: u16, code: String, message: String },
    InvalidJson(String),
    SerializeJson(String),
    UnexpectedType,
    BinaryFrame,
    ConcurrentMessage,
    SendFailed,
    ClientDisconnected,
    Shutdown,
    Receive(String),
}

/// The view of a [`WsError`].
#[verifier::ext_equal]
pub enum WsErrorView {
    Executor { status: u16, code: Seq<char>, message: Seq<char> },
    InvalidJson(Seq<char>),
    SerializeJson(Seq<char>),
    UnexpectedType,
    BinaryFrame,
    ConcurrentMessage,
    SendFailed,
    ClientDisconnected,
    Shutdown,
    Receive(Seq<char>),
}

impl View for WsError {
    type V = WsErrorView;

    open spec fn view(&self) -> WsErrorView {
        match *self {
            WsError::Executor { status, code, message } => WsErrorView::Executor {
                status: status,
                code: code@,
                message: message@,
            },
            WsError::InvalidJson(x) => WsErrorView::InvalidJson(x@),
            WsError::SerializeJson(x) => WsErrorView::SerializeJson(x@),
            WsError::UnexpectedType => WsErrorView::UnexpectedType,
            WsError::BinaryFrame => WsErrorView::BinaryFrame,
            WsError::ConcurrentMessage => WsErrorView::ConcurrentMessage,
            WsError::SendFailed => WsErrorView::SendFailed,
            WsError::ClientDisconnected => WsErrorView::ClientDisconnected,
            WsError::Shutdown => WsErrorView::Shutdown,
            WsError::Receive(x) => WsErrorView::Receive(x@),
        }
    }
}

impl Data for WsError {
    fn copied(&self) -> (out: WsError) {
        match self {
            WsError::Executor { status, code, message } => WsError::Executor {
                status: *status,
                code: code.copied(),
                message: message.copied(),
            },
            WsError::InvalidJson(x) => WsError::InvalidJson(x.copied()),
            WsError::SerializeJson(x) => WsError::SerializeJson(x.copied()),
            WsError::UnexpectedType => WsError::UnexpectedType,
            WsError::BinaryFrame => WsError::BinaryFrame,
            WsError::ConcurrentMessage => WsError::ConcurrentMessage,
            WsError::SendFailed => WsError::SendFailed,
            WsError::ClientDisconnected => WsError::ClientDisconnected,
            WsError::Shutdown => WsError::Shutdown,
            WsError::Receive(x) => WsError::Receive(x.copied()),
        }
    }

    fn same(&self, other: &WsError) -> (yes: bool) {
        match (self, other) {
            (
                WsError::Executor { status: a_status, code: a_code, message: a_message },
                WsError::Executor { status: b_status, code: b_code, message: b_message },
            ) => {
                *a_status == *b_status
                && a_code.same(b_code)
                && a_message.same(b_message)
            },
            (WsError::InvalidJson(a), WsError::InvalidJson(b)) => a.same(b),
            (WsError::SerializeJson(a), WsError::SerializeJson(b)) => a.same(b),
            (WsError::UnexpectedType, WsError::UnexpectedType) => true,
            (WsError::BinaryFrame, WsError::BinaryFrame) => true,
            (WsError::ConcurrentMessage, WsError::ConcurrentMessage) => true,
            (WsError::SendFailed, WsError::SendFailed) => true,
            (WsError::ClientDisconnected, WsError::ClientDisconnected) => true,
            (WsError::Shutdown, WsError::Shutdown) => true,
            (WsError::Receive(a), WsError::Receive(b)) => a.same(b),
            _ => false,
        }
    }
}

/// What came from the client of a websocket.
#[derive(Debug, Clone, PartialEq)]
pub enum ClientMessage {
    Text(String),
    Binary,
    Ping,
    Pong,
    Close,
    Ended,
    Failed(String),
}

/// The view of a [`ClientMessage`].
#[verifier::ext_equal]
pub enum ClientMessageView {
    Text(Seq<char>),
    Binary,
    Ping,
    Pong,
    Close,
    Ended,
    Failed(Seq<char>),
}

impl View for ClientMessage {
    type V = ClientMessageView;

    open spec fn view(&self) -> ClientMessageView {
        match *self {
            ClientMessage::Text(x) => ClientMessageView::Text(x@),
            ClientMessage::Binary => ClientMessageView::Binary,
            ClientMessage::Ping => ClientMessageView::Ping,
            ClientMessage::Pong => ClientMessageView::Pong,
            ClientMessage::Close => ClientMessageView::Close,
            ClientMessage::Ended => ClientMessageView::Ended,
            ClientMessage::Failed(x) => ClientMessageView::Failed(x@),
        }
    }
}

impl Data for ClientMessage {
    fn copied(&self) -> (out: ClientMessage) {
        match self {
            ClientMessage::Text(x) => ClientMessage::Text(x.copied()),
            ClientMessage::Binary => ClientMessage::Binary,
            ClientMessage::Ping => ClientMessage::Ping,
            ClientMessage::Pong => ClientMessage::Pong,
            ClientMessage::Close => ClientMessage::Close,
            ClientMessage::Ended => ClientMessage::Ended,
            ClientMessage::Failed(x) => ClientMessage::Failed(x.copied()),
        }
    }

    fn same(&self, other: &ClientMessage) -> (yes: bool) {
        match (self, other) {
            (ClientMessage::Text(a), ClientMessage::Text(b)) => a.same(b),
            (ClientMessage::Binary, ClientMessage::Binary) => true,
            (ClientMessage::Ping, ClientMessage::Ping) => true,
            (ClientMessage::Pong, ClientMessage::Pong) => true,
            (ClientMessage::Close, ClientMessage::Close) => true,
            (ClientMessage::Ended, ClientMessage::Ended) => true,
            (ClientMessage::Failed(a), ClientMessage::Failed(b)) => a.same(b),
            _ => false,
        }
    }
}

/// What is done with a message while no response is streamed.
#[derive(Debug, Clone, PartialEq)]
pub enum IdleReaction {
    Handle(String),
    Refuse(WsError),
    /// With a pong.
    Answer,
    Ignore,
    Stop,
}

/// The view of a [`IdleReaction`].
#[verifier::ext_equal]
pub enum IdleReactionView {
    Handle(Seq<char>),
    Refuse(WsErrorView),
    Answer,
    Ignore,
    Stop,
}

impl View for IdleReaction {
    type V = IdleReactionView;

    open spec fn view(&self) -> IdleReactionView {
        match *self {
            IdleReaction::Handle(x) => IdleReactionView::Handle(x@),
            IdleReaction::Refuse(x) => IdleReactionView::Refuse(x@),
            IdleReaction::Answer => IdleReactionView::Answer,
            IdleReaction::Ignore => IdleReactionView::Ignore,
            IdleReaction::Stop => IdleReactionView::Stop,
        }
    }
}

impl Data for IdleReaction {
    fn copied(&self) -> (out: IdleReaction) {
        match self {
            IdleReaction::Handle(x) => IdleReaction::Handle(x.copied()),
            IdleReaction::Refuse(x) => IdleReaction::Refuse(x.copied()),
            IdleReaction::Answer => IdleReaction::Answer,
            IdleReaction::Ignore => IdleReaction::Ignore,
            IdleReaction::Stop => IdleReaction::Stop,
        }
    }

    fn same(&self, other: &IdleReaction) -> (yes: bool) {
        match (self, other) {
            (IdleReaction::Handle(a), IdleReaction::Handle(b)) => a.same(b),
            (IdleReaction::Refuse(a), IdleReaction::Refuse(b)) => a.same(b),
            (IdleReaction::Answer, IdleReaction::Answer) => true,
            (IdleReaction::Ignore, IdleReaction::Ignore) => true,
            (IdleReaction::Stop, IdleReaction::Stop) => true,
            _ => false,
        }
    }
}

/// What is done with a message while a response is streamed.
#[derive(Debug, Clone, PartialEq)]
pub enum StreamReaction {
    Fail(WsError),
    /// With a pong.
    Answer,
    Ignore,
}

/// The view of a [`StreamReaction`].
#[verifier::ext_equal]
pub enum StreamReactionView {
    Fail(WsErrorView),
    Answer,
    Ignore,
}

impl View for StreamReaction {
    type V = StreamReactionView;

    open spec fn view(&self) -> StreamReactionView {
        match *self {
            StreamReaction::Fail(x) => StreamReactionView::Fail(x@),
            StreamReaction::Answer => StreamReactionView::Answer,
            StreamReaction::Ignore => StreamReactionView::Ignore,
        }
    }
}

impl Data for StreamReaction {
    fn copied(&self) -> (out: StreamReaction) {
        match self {
            StreamReaction::Fail(x) => StreamReaction::Fail(x.copied()),
            StreamReaction::Answer => StreamReaction::Answer,
            StreamReaction::Ignore => StreamReaction::Ignore,
        }
    }

    fn same(&self, other: &StreamReaction) -> (yes: bool) {
        match (self, other) {
            (StreamReaction::Fail(a), StreamReaction::Fail(b)) => a.same(b),
            (StreamReaction::Answer, StreamReaction::Answer) => true,
            (StreamReaction::Ignore, StreamReaction::Ignore) => true,
            _ => false,
        }
    }
}

/// What becomes of a line of an upstream stream.
#[derive(Debug, Clone, PartialEq)]
pub enum WsLine {
    Skip,
    Send(Json),
    Invalid(String),
}

/// The view of a [`WsLine`].
#[verifier::ext_equal]
pub enum WsLineView {
    Skip,
    Send(JsonView),
    Invalid(Seq<char>),
}

impl View for WsLine {
    type V = WsLineView;

    open spec fn view(&self) -> WsLineView {
        match *self {
            WsLine::Skip => WsLineView::Skip,
            WsLine::Send(x) => WsLineView::Send(x@),
            WsLine::Invalid(x) => WsLineView::Invalid(x@),
        }
    }
}

impl Data for WsLine {
    fn copied(&self) -> (out: WsLine) {
        match self {
            WsLine::Skip => WsLine::Skip,
            WsLine::Send(x) => WsLine::Send(x.copied()),
            WsLine::Invalid(x) => WsLine::Invalid(x.copied()),
        }
    }

    fn same(&self, other: &WsLine) -> (yes: bool) {
        match (self, other) {
            (WsLine::Skip, WsLine::Skip) => true,
            (WsLine::Send(a), WsLine::Send(b)) => a.same(b),
            (WsLine::Invalid(a), WsLine::Invalid(b)) => a.same(b),
            _ => false,
        }
    }
}

/// Why a websocket message is no request.
#[derive(Debug, Clone, PartialEq)]
pub enum WsRefusal {
    InvalidJson(String),
    UnexpectedType,
    InvalidPayload(String),
}

/// The view of a [`WsRefusal`].
#[verifier::ext_equal]
pub enum WsRefusalView {
    InvalidJson(Seq<char>),
    UnexpectedType,
    InvalidPayload(Seq<char>),
}

impl View for WsRefusal {
    type V = WsRefusalView;

    open spec fn view(&self) -> WsRefusalView {
        match *self {
            WsRefusal::InvalidJson(reason) => WsRefusalView::InvalidJson(reason@),
            WsRefusal::UnexpectedType => WsRefusalView::UnexpectedType,
            WsRefusal::InvalidPayload(reason) => WsRefusalView::InvalidPayload(reason@),
        }
    }
}

/// Who answers a request.
#[derive(Debug, Clone, Copy, PartialEq, Eq, Structural)]
pub enum Route {
    Execute,
    Proxy,
}

/// The most bytes that a request may have.
pub const MAX_BODY_SIZE: usize = 10_485_760;

/// The HTTP status of an error.
pub open spec fn ws_status(error: WsErrorView) -> u16 {
    match error {
        WsErrorView::Executor { status, .. } => status,
        WsErrorView::InvalidJson(_) => 400,
        WsErrorView::UnexpectedType => 400,
        WsErrorView::BinaryFrame => 400,
        WsErrorView::ConcurrentMessage => 400,
        _ => 500,
    }
}

/// The code of an error.
pub open spec fn ws_code(error: WsErrorView) -> Seq<char> {
    match error {
        WsErrorView::Executor { code, .. } => code,
        WsErrorView::InvalidJson(_) => "invalid_json"@,
        WsErrorView::UnexpectedType => "invalid_request_error"@,
        WsErrorView::BinaryFrame => "invalid_request_error"@,
        WsErrorView::ConcurrentMessage => "invalid_request_error"@,
        _ => "server_error"@,
    }
}

/// An error as text.
pub open spec fn ws_text(error: WsErrorView) -> Seq<char> {
    match error {
        WsErrorView::Executor { message, .. } => message,
        WsErrorView::InvalidJson(reason) => "invalid JSON: "@ + reason,
        WsErrorView::SerializeJson(reason) => "failed to serialize websocket event: "@ + reason,
        WsErrorView::UnexpectedType => "websocket message type must be response.create"@,
        WsErrorView::BinaryFrame => "websocket messages must be JSON text frames"@,
        WsErrorView::ConcurrentMessage => "websocket received a new message while response stream is active"@,
        WsErrorView::SendFailed => "websocket send failed"@,
        WsErrorView::ClientDisconnected => "websocket client disconnected"@,
        WsErrorView::Shutdown => "websocket shutdown requested"@,
        WsErrorView::Receive(reason) => "websocket receive failed: "@ + reason,
    }
}

/// Whether the client is told of an error.
pub open spec fn is_told(error: WsErrorView) -> bool {
    match error {
        WsErrorView::SerializeJson(_) => false,
        WsErrorView::SendFailed => false,
        WsErrorView::ClientDisconnected => false,
        WsErrorView::Shutdown => false,
        WsErrorView::Receive(_) => false,
        _ => true,
    }
}

/// What the client is told of an error.
pub open spec fn error_frame(error: WsErrorView) -> JsonView {
    JsonView::Object(
        Map::<Seq<char>, JsonView>::empty().insert("type"@, JsonView::Text("error"@)).insert(
            "status"@,
            crate::wire::u64_json(ws_status(error) as u64),
        ).insert(
            "error"@,
            JsonView::Object(
                Map::<Seq<char>, JsonView>::empty().insert(
                    "message"@,
                    JsonView::Text(ws_text(error)),
                ).insert("type"@, JsonView::Text(ws_code(error))).insert(
                    "code"@,
                    JsonView::Text(ws_code(error)),
                ),
            ),
        ),
    )
}

impl WsError {
    /// The HTTP status of this error.
    pub fn status(&self) -> (status: u16)
        ensures
            status == ws_status(self@),
    {
        match self {
            WsError::Executor { status, .. } => *status,
            WsError::InvalidJson(_)
            | WsError::UnexpectedType
            | WsError::BinaryFrame
            | WsError::ConcurrentMessage => 400,
            _ => 500,
        }
    }

    /// The code of this error.
    pub fn code(&self) -> (code: &str)
        ensures
            code@ == ws_code(self@),
    {
        match self {
            WsError::Executor { code, .. } => code.as_str(),
            WsError::InvalidJson(_) => "invalid_json",
            WsError::UnexpectedType | WsError::BinaryFrame | WsError::ConcurrentMessage => "invalid_request_error",
            _ => "server_error",
        }
    }

    /// This error as text.
    pub fn message(&self) -> (text: String)
        ensures
            text@ == ws_text(self@),
    {
        match self {
            WsError::Executor { message, .. } => message.clone(),
            WsError::InvalidJson(reason) => concat("invalid JSON: ", reason.as_str()),
            WsError::SerializeJson(reason) => concat(
                "failed to serialize websocket event: ",
                reason.as_str(),
            ),
            WsError::UnexpectedType => "websocket message type must be response.create".to_owned(),
            WsError::BinaryFrame => "websocket messages must be JSON text frames".to_owned(),
            WsError::ConcurrentMessage => "websocket received a new message while response stream is active".to_owned(),
            WsError::SendFailed => "websocket send failed".to_owned(),
            WsError::ClientDisconnected => "websocket client disconnected".to_owned(),
            WsError::Shutdown => "websocket shutdown requested".to_owned(),
            WsError::Receive(reason) => concat("websocket receive failed: ", reason.as_str()),
        }
    }

    /// What the client is told of this error, if it is. Where it is not, the connection
    /// ends.
    pub fn to_ws_frame(&self) -> (frame: Option<Json>)
        ensures
            crate::data::opt_view(frame) == (if is_told(self@) {
                Some(error_frame(self@))
            } else {
                None
            }),
    {
        match self {
            WsError::SerializeJson(_)
            | WsError::SendFailed
            | WsError::ClientDisconnected
            | WsError::Shutdown
            | WsError::Receive(_) => {
                return None;
            },
            _ => {},
        }
        let code = self.code();
        let mut error = JsonObject::new();
        error.set_str("message", self.message().as_str());
        error.set_str("type", code);
        error.set_str("code", code);
        let mut frame = JsonObject::new();
        frame.set_str("type", "error");
        frame.set("status", Json::Number(JsonNumber::from_u64(self.status() as u64)));
        frame.set("error", Json::Object(error));
        Some(Json::Object(frame))
    }
}

/// What is done with a message while no response is streamed.
pub open spec fn idle_reaction(message: ClientMessageView) -> IdleReactionView {
    match message {
        ClientMessageView::Text(text) => IdleReactionView::Handle(text),
        ClientMessageView::Binary => IdleReactionView::Refuse(WsErrorView::BinaryFrame),
        ClientMessageView::Ping => IdleReactionView::Answer,
        ClientMessageView::Pong => IdleReactionView::Ignore,
        ClientMessageView::Close => IdleReactionView::Stop,
        ClientMessageView::Ended => IdleReactionView::Stop,
        ClientMessageView::Failed(_) => IdleReactionView::Stop,
    }
}

/// What is done with a message while a response is streamed: a new request has to wait for
/// the response.
pub open spec fn stream_reaction(message: ClientMessageView) -> StreamReactionView {
    match message {
        ClientMessageView::Text(_) => StreamReactionView::Fail(WsErrorView::ConcurrentMessage),
        ClientMessageView::Binary => StreamReactionView::Fail(WsErrorView::BinaryFrame),
        ClientMessageView::Ping => StreamReactionView::Answer,
        ClientMessageView::Pong => StreamReactionView::Ignore,
        ClientMessageView::Close => StreamReactionView::Fail(WsErrorView::ClientDisconnected),
        ClientMessageView::Ended => StreamReactionView::Fail(WsErrorView::ClientDisconnected),
        ClientMessageView::Failed(reason) => StreamReactionView::Fail(WsErrorView::Receive(reason)),
    }
}

impl ClientMessage {
    /// What is done with this message while no response is streamed.
    pub fn when_idle(&self) -> (reaction: IdleReaction)
        ensures
            reaction@ == idle_reaction(self@),
    {
        match self {
            ClientMessage::Text(text) => IdleReaction::Handle(text.clone()),
            ClientMessage::Binary => IdleReaction::Refuse(WsError::BinaryFrame),
            ClientMessage::Ping => IdleReaction::Answer,
            ClientMessage::Pong => IdleReaction::Ignore,
            ClientMessage::Close | ClientMessage::Ended | ClientMessage::Failed(_) => IdleReaction::Stop,
        }
    }

    /// What is done with this message while a response is streamed.
    pub fn while_streaming(&self) -> (reaction: StreamReaction)
        ensures
            reaction@ == stream_reaction(self@),
    {
        match self {
            ClientMessage::Text(_) => StreamReaction::Fail(WsError::ConcurrentMessage),
            ClientMessage::Binary => StreamReaction::Fail(WsError::BinaryFrame),
            ClientMessage::Ping => StreamReaction::Answer,
            ClientMessage::Pong => StreamReaction::Ignore,
            ClientMessage::Close | ClientMessage::Ended => StreamReaction::Fail(
                WsError::ClientDisconnected,
            ),
            ClientMessage::Failed(reason) => StreamReaction::Fail(WsError::Receive(reason.clone())),
        }
    }
}

/// The request that a parsed websocket message is. It is always streamed. `reason` is what
/// is told to be wrong with the fields of a message that asks for a response and is no
/// request.
pub open spec fn ws_request(
    value: Result<JsonView, Seq<char>>,
    reason: Seq<char>,
) -> Result<RequestPayloadView, WsRefusalView> {
    match value {
        Err(reason) => Err(WsRefusalView::InvalidJson(reason)),
        Ok(v) => if crate::json::text_of(crate::json::field(v, "type"@)) != Some(
            "response.create"@,
        ) {
            Err(WsRefusalView::UnexpectedType)
        } else {
            match <RequestPayload as FromJson>::of_json(v) {
                Some(request) => Ok(RequestPayloadView { stream: true, ..request }),
                None => Err(WsRefusalView::InvalidPayload(reason)),
            }
        },
    }
}

/// The view of a request, or of why there is none.
pub open spec fn request_outcome(out: Result<RequestPayload, WsRefusal>) -> Result<
    RequestPayloadView,
    WsRefusalView,
> {
    match out {
        Ok(request) => Ok(request@),
        Err(e) => Err(e@),
    }
}

/// The request that a parsed websocket message is.
pub fn read_parsed_ws_request(
    value: &Result<Json, String>,
    reason: &str,
) -> (out: Result<RequestPayload, WsRefusal>)
    ensures
        request_outcome(out) == ws_request(crate::json::read_view(*value), reason@),
{
    let value = match value {
        Ok(value) => value,
        Err(invalid) => {
            return Err(WsRefusal::InvalidJson(invalid.clone()));
        },
    };
    if !value.field_is("type", "response.create") {
        return Err(WsRefusal::UnexpectedType);
    }
    match RequestPayload::from_json(value) {
        Some(request) => {
            let mut request = request;
            request.stream = true;
            Ok(request)
        },
        None => Err(WsRefusal::InvalidPayload(reason.to_owned())),
    }
}

/// The request that a websocket message is. `reason` is what is told to be wrong with the
/// fields of a message that asks for a response and is no request.
pub fn read_ws_request(text: &str, reason: &str) -> (out: Result<RequestPayload, WsRefusal>)
    ensures
        request_outcome(out) == ws_request(crate::json::read_json(text@), reason@),
{
    let value = Json::read(text);
    read_parsed_ws_request(&value, reason)
}

/// The data of a stream's line, where it has any that is not the end mark.
pub open spec fn line_data(line: Seq<char>) -> Option<Seq<char>> {
    if crate::text::has_prefix(line, "data: "@) {
        let data = crate::text::trim_text(line.skip("data: "@.len() as int));
        if data == "[DONE]"@ {
            None
        } else {
            Some(data)
        }
    } else {
        None
    }
}

/// What the client is sent for a line's data, parsed.
pub open spec fn sent_for(
    value: Result<JsonView, Seq<char>>,
    ids: RequestIdsView,
) -> WsLineView {
    match value {
        Err(reason) => WsLineView::Invalid(reason),
        Ok(JsonView::Object(fields)) => WsLineView::Send(
            JsonView::Object(crate::upstream::with_ids(fields, ids)),
        ),
        Ok(other) => WsLineView::Send(other),
    }
}

/// What the client is sent for a line's data, parsed: the event with its response under
/// the gateway's ids.
pub fn ws_event(value: Result<Json, String>, ids: &RequestIds) -> (out: WsLine)
    ensures
        out@ == sent_for(crate::json::read_view(value), ids@),
{
    match value {
        Ok(value) => {
            let mut value = value;
            apply_gateway_response_ids(&mut value, ids);
            WsLine::Send(value)
        },
        Err(reason) => WsLine::Invalid(reason),
    }
}

/// What becomes of a line of an upstream stream.
pub fn ws_line(line: &str, ids: &RequestIds) -> (out: WsLine)
    ensures
        out@ == (match line_data(line@) {
            None => WsLineView::Skip,
            Some(data) => sent_for(crate::json::read_json(data), ids@),
        }),
{
    let data = match strip_prefix(line, "data: ") {
        Some(rest) => trim(rest.as_str()),
        None => {
            return WsLine::Skip;
        },
    };
    if same_text(data.as_str(), "[DONE]") {
        return WsLine::Skip;
    }
    ws_event(Json::read(data.as_str()), ids)
}

/// Whether a parsed body asks for the response to be kept: it does unless it says not to.
pub open spec fn asks_to_store(body: Option<JsonView>) -> bool {
    match body {
        Some(value) => match crate::json::field(value, "store"@) {
            Some(JsonView::Bool(store)) => store,
            _ => true,
        },
        None => true,
    }
}

/// Who answers a request: what is to be kept is executed, the rest is passed on.
pub open spec fn route_of(body: Option<JsonView>) -> Route {
    if asks_to_store(body) {
        Route::Execute
    } else {
        Route::Proxy
    }
}

/// Who answers a request with a parsed body.
pub fn route_parsed(body: &Option<Json>) -> (route: Route)
    ensures
        route == route_of(crate::data::opt_view(*body)),
{
    if let Some(value) = body {
        if let Some(Json::Bool(store)) = value.get("store") {
            if !*store {
                return Route::Proxy;
            }
        }
    }
    Route::Execute
}

/// Who answers a request.
pub fn route(body: &str) -> (route: Route)
    ensures
        route == route_of(crate::json::parsed_json(body@)),
{
    let body = Json::parse(body);
    route_parsed(&body)
}

/// The token of an authorization header.
pub open spec fn bearer_of(header: Option<Seq<char>>) -> Option<Seq<char>> {
    match header {
        Some(value) if crate::text::has_prefix(
            value,
            "Bearer "@,
        ) && value.len() > "Bearer "@.len() => Some(
            value.skip("Bearer "@.len() as int),
        ),
        _ => None,
    }
}

/// The token of an authorization header.
pub fn extract_bearer(header: Option<&str>) -> (token: Option<String>)
    ensures
        crate::data::opt_view(token) == bearer_of(crate::json::str_view(header)),
{
    let rest = match header {
        Some(value) => strip_prefix(value, "Bearer "),
        None => None,
    };
    match rest {
        Some(token) => if token.as_str().is_empty() {
            None
        } else {
            Some(token)
        },
        None => None,
    }
}

/// The token that an upstream server is shown: the request's own where it has one.
pub fn client_auth(request: Option<String>, configured: &Option<String>) -> (token: Option<String>)
    ensures
        crate::data::opt_view(token) == (match crate::data::opt_view(request) {
            Some(own) => Some(own),
            None => crate::data::opt_view(*configured),
        }),
{
    match request {
        Some(own) => Some(own),
        None => copy_opt(configured),
    }
}

/// A request whose conversation counts only where its response is kept.
pub fn with_kept_conversation(request: RequestPayload) -> (out: RequestPayload)
    ensures
        out@ == (RequestPayloadView {
            conversation_id: if request@.store {
                request@.conversation_id
            } else {
                None
            },
            ..request@
        }),
{
    let mut request = request;
    if !request.store {
        request.conversation_id = None;
    }
    request
}

/// A conversation as the client sees it.
pub open spec fn conversation(id: Seq<char>, created_at: i64) -> JsonView {
    JsonView::Object(
        Map::<Seq<char>, JsonView>::empty().insert("id"@, JsonView::Text(id)).insert(
            "created_at"@,
            JsonView::Number(crate::json::integer_text(created_at as int)),
        ).insert("object"@, JsonView::Text("conversation"@)).insert(
            "metadata"@,
            JsonView::Object(Map::empty()),
        ),
    )
}

/// A conversation as the client sees it.
pub fn conversation_json(id: &str, created_at: i64) -> (out: Json)
    ensures
        out@ == conversation(id@, created_at),
{
    let mut fields = JsonObject::new();
    fields.set_str("id", id);
    fields.set("created_at", Json::Number(JsonNumber::from_i64(created_at)));
    fields.set_str("object", "conversation");
    fields.set("metadata", Json::Object(JsonObject::new()));
    Json::Object(fields)
}

/// Where a model server is asked whether it is well.
pub fn health_url(base: &str) -> (url: String)
    ensures
        url@ == crate::text::trim_end_matches_text(base@, '/') + "/health"@,
{
    let base = trim_end_matches(base, '/');
    concat(base.as_str(), "/health")
}

/// A message that is no request is answered as the client's error, and the connection
/// stays.
pub proof fn bad_messages_are_answered(refusal: WsErrorView)
    requires
        refusal is InvalidJson || refusal is UnexpectedType || refusal is BinaryFrame
            || refusal is ConcurrentMessage,
    ensures
        is_told(refusal),
        ws_status(refusal) == 400,
{
}

/// What happens while a response is streamed to a client.
#[derive(Debug, Clone, PartialEq)]
pub enum WsEvent {
    /// The gateway is asked to stop.
    Shutdown,
    /// Something came from the client.
    Client(ClientMessage),
    /// The upstream stream gave a line.
    Line(String),
    /// The upstream stream failed.
    Broken(WsError),
    /// The upstream stream has ended.
    Ended,
}

/// The view of a [`WsEvent`].
#[verifier::ext_equal]
pub enum WsEventView {
    Shutdown,
    Client(ClientMessageView),
    Line(Seq<char>),
    Broken(WsErrorView),
    Ended,
}

impl View for WsEvent {
    type V = WsEventView;

    open spec fn view(&self) -> WsEventView {
        match *self {
            WsEvent::Shutdown => WsEventView::Shutdown,
            WsEvent::Client(x) => WsEventView::Client(x@),
            WsEvent::Line(x) => WsEventView::Line(x@),
            WsEvent::Broken(x) => WsEventView::Broken(x@),
            WsEvent::Ended => WsEventView::Ended,
        }
    }
}

/// What is done while a response is streamed to a client.
#[derive(Debug, Clone, PartialEq)]
pub enum WsAction {
    Send(Json),
    /// With a pong.
    Answer,
    Wait,
    Fail(WsError),
    /// The upstream stream gave something that is no JSON, and what is wrong with it.
    Invalid(String),
    /// The stream is over, and the response is kept if it is to be.
    Finish,
}

/// The view of a [`WsAction`].
#[verifier::ext_equal]
pub enum WsActionView {
    Send(JsonView),
    Answer,
    Wait,
    Fail(WsErrorView),
    Invalid(Seq<char>),
    Finish,
}

impl View for WsAction {
    type V = WsActionView;

    open spec fn view(&self) -> WsActionView {
        match *self {
            WsAction::Send(x) => WsActionView::Send(x@),
            WsAction::Answer => WsActionView::Answer,
            WsAction::Wait => WsActionView::Wait,
            WsAction::Fail(x) => WsActionView::Fail(x@),
            WsAction::Invalid(x) => WsActionView::Invalid(x@),
            WsAction::Finish => WsActionView::Finish,
        }
    }
}

/// What is done about an event, with what a line's data reads as.
pub open spec fn stream_action(
    event: WsEventView,
    parsed: Result<JsonView, Seq<char>>,
    ids: RequestIdsView,
) -> WsActionView {
    match event {
        WsEventView::Shutdown => WsActionView::Fail(WsErrorView::Shutdown),
        WsEventView::Client(message) => match stream_reaction(message) {
            StreamReactionView::Fail(error) => WsActionView::Fail(error),
            StreamReactionView::Answer => WsActionView::Answer,
            StreamReactionView::Ignore => WsActionView::Wait,
        },
        WsEventView::Line(line) => if line_data(line) is None {
            WsActionView::Wait
        } else {
            match sent_for(parsed, ids) {
                WsLineView::Skip => WsActionView::Wait,
                WsLineView::Send(value) => WsActionView::Send(value),
                WsLineView::Invalid(reason) => WsActionView::Invalid(reason),
            }
        },
        WsEventView::Broken(error) => WsActionView::Fail(error),
        WsEventView::Ended => WsActionView::Finish,
    }
}

/// The data of the line that an event is, where it is one with data.
pub open spec fn event_data(event: WsEventView) -> Seq<char> {
    match event {
        WsEventView::Line(line) => match line_data(line) {
            Some(data) => data,
            None => Seq::empty(),
        },
        _ => Seq::empty(),
    }
}

/// A response that is streamed to the client of a websocket, and kept where that is asked
/// for.
#[derive(Debug)]
pub struct WsStream {
    pub ids: RequestIds,
    pub keep: bool,
    /// The lines of which the client was sent something, where they are kept.
    pub lines: Vec<String>,
}

impl WsStream {
    /// A stream of which nothing was sent yet.
    pub fn new(context: &RequestContext) -> (stream: WsStream)
        ensures
            stream.ids@ == context@.ids,
            stream.keep == crate::request::is_kept(context@),
            crate::data::views(stream.lines@) == Seq::<Seq<char>>::empty(),
    {
        let lines: Vec<String> = Vec::new();
        proof {
            assert(crate::data::views(lines@) =~= Seq::empty());
        }
        WsStream { ids: context.ids.copied(), keep: context.should_persist(), lines }
    }

    /// Takes a line of the upstream stream, and says what becomes of it.
    pub fn take_line(&mut self, line: &str) -> (out: WsLine)
        ensures
            final(self).ids@ == old(self).ids@,
            final(self).keep == old(self).keep,
            out@ == (match line_data(line@) {
                None => WsLineView::Skip,
                Some(data) => sent_for(crate::json::read_json(data), old(self).ids@),
            }),
            crate::data::views(final(self).lines@) == (if old(self).keep && out@ is Send {
                crate::data::views(old(self).lines@).push(line@)
            } else {
                crate::data::views(old(self).lines@)
            }),
    {
        let out = ws_line(line, &self.ids);
        if self.keep {
            if let WsLine::Send(_) = &out {
                let line = line.to_owned();
                proof {
                    crate::data::views_push(self.lines@, line);
                }
                self.lines.push(line);
            }
        }
        out
    }

    /// What is done about what happens while the response is streamed.
    pub fn step(&mut self, event: &WsEvent) -> (action: WsAction)
        ensures
            final(self).ids@ == old(self).ids@,
            final(self).keep == old(self).keep,
            action@ == stream_action(
                event@,
                crate::json::read_json(event_data(event@)),
                old(self).ids@,
            ),
            crate::data::views(final(self).lines@) == (match event@ {
                WsEventView::Line(line) => if old(self).keep && action@ is Send {
                    crate::data::views(old(self).lines@).push(line)
                } else {
                    crate::data::views(old(self).lines@)
                },
                _ => crate::data::views(old(self).lines@),
            }),
    {
        match event {
            WsEvent::Shutdown => WsAction::Fail(WsError::Shutdown),
            WsEvent::Client(message) => match message.while_streaming() {
                StreamReaction::Fail(error) => WsAction::Fail(error),
                StreamReaction::Answer => WsAction::Answer,
                StreamReaction::Ignore => WsAction::Wait,
            },
            WsEvent::Line(line) => match self.take_line(line.as_str()) {
                WsLine::Skip => WsAction::Wait,
                WsLine::Send(value) => WsAction::Send(value),
                WsLine::Invalid(reason) => WsAction::Invalid(reason),
            },
            WsEvent::Broken(error) => WsAction::Fail(error.copied()),
            WsEvent::Ended => WsAction::Finish,
        }
    }

    /// The response to keep, if any is, once the stream has ended.
    pub fn finish(
        &self,
        model: &str,
        instructions: Option<String>,
    ) -> (out: Option<ResponsePayload>)
        ensures
            (!self.keep || self.lines@.len() == 0) ==> out is None,
            (self.keep && self.lines@.len() > 0) ==> (out matches Some(payload) && exists|
                id: Seq<char>,
                fresh: Seq<Seq<char>>,
            |
                crate::ids::is_uuid7(id) && crate::accumulator::all_uuids(fresh) && fresh.len()
                    == self.lines@.len() && payload@ == kept_response(
                    #[trigger] crate::accumulator::lines_read(
                        crate::accumulator::fresh_accumulator(
                            "resp_"@ + id,
                            self.ids@.conversation_id,
                        ),
                        crate::data::views(self.lines@),
                        fresh,
                        self.lines@.len() as int,
                    ),
                    self.ids@,
                    payload@.created_at,
                    model@,
                    crate::data::opt_view(instructions),
                )),
    {
        if !self.keep || self.lines.len() == 0 {
            return None;
        }
        let accumulator = ResponseAccumulator::from_sse_lines(
            &self.lines,
            copy_opt(&self.ids.conversation_id),
        );
        let mut payload = accumulator.finalize(
            model,
            copy_opt(&self.ids.previous_response_id),
            instructions,
        );
        apply_gateway_payload_ids(&mut payload, &self.ids);
        Some(payload)
    }
}

/// The response that lines come to, under the gateway's ids.
pub open spec fn kept_response(
    read: AccumulatorView,
    ids: RequestIdsView,
    created_at: i64,
    model: Seq<char>,
    instructions: Option<Seq<char>>,
) -> ResponsePayloadView {
    crate::upstream::payload_with_ids(
        crate::accumulator::response_of(
            crate::accumulator::all_ended(read),
            created_at,
            model,
            ids.previous_response_id,
            instructions,
        ),
        ids,
    )
}

} // verus!
