//! What the gateway answers: which messages it takes, what it says of errors, and who answers a
//! request.
use vstd::prelude::*;

#[allow(unused_imports)]
use crate::accumulator::AccumulatorView;
#[allow(unused_imports)]
use crate::gateway::{
    ClientMessageView, IdleReactionView, Route, StreamReactionView, WsActionView, WsErrorView,
    WsEventView, WsLineView, WsRefusalView,
};
#[allow(unused_imports)]
use crate::json::JsonView;
#[allow(unused_imports)]
use crate::payload::{RequestPayload, RequestPayloadView};
#[allow(unused_imports)]
use crate::upstream::RequestIdsView;
#[allow(unused_imports)]
use crate::wire::FromJson;

verus! {

/// A fault of the client's message is answered as a bad request, one of the gateway's or of the
/// connection as a fault of the server, and what the executor says as it says it.
pub proof fn faults_are_told_apart(error: WsErrorView)
    ensures
        error is InvalidJson || error is UnexpectedType || error is BinaryFrame || error
            is ConcurrentMessage ==> crate::gateway::ws_status(error) == 400,
        error is InvalidJson ==> crate::gateway::ws_code(error) == "invalid_json"@,
        error is UnexpectedType || error is BinaryFrame || error is ConcurrentMessage
            ==> crate::gateway::ws_code(error) == "invalid_request_error"@,
        error is SerializeJson || error is SendFailed || error is ClientDisconnected || error
            is Shutdown || error is Receive ==> crate::gateway::ws_status(error) == 500
            && crate::gateway::ws_code(error) == "server_error"@ && !crate::gateway::is_told(error),
        error is Executor ==> crate::gateway::ws_status(error) == error->status
            && crate::gateway::ws_code(error) == error->code && crate::gateway::ws_text(error)
            == error->message,
        error is Executor || error is InvalidJson || error is UnexpectedType || error
            is BinaryFrame || error is ConcurrentMessage ==> crate::gateway::is_told(error),
{
}

/// The client is told of an error its status, its code and what it is, each in its place.
pub proof fn errors_are_told_whole(error: WsErrorView)
    ensures
        ({
            let frame = crate::gateway::error_frame(error);
            let fields = frame->Object_0;
            let told = fields["error"@]->Object_0;
            &&& frame is Object
            &&& crate::accumulator_laws::says(fields, "type"@, "error"@)
            &&& crate::events_laws::counts(
                fields,
                "status"@,
                crate::gateway::ws_status(error) as u64,
            )
            &&& fields.contains_key("error"@) && fields["error"@] is Object
            &&& crate::accumulator_laws::says(told, "message"@, crate::gateway::ws_text(error))
            &&& crate::accumulator_laws::says(told, "code"@, crate::gateway::ws_code(error))
            &&& crate::accumulator_laws::says(told, "type"@, crate::gateway::ws_code(error))
        }),
{
    reveal_strlit("type");
    reveal_strlit("status");
    reveal_strlit("error");
    reveal_strlit("message");
    reveal_strlit("code");
    assert("type"@.len() == 4 && "type"@[0] == 't');
    assert("status"@.len() == 6);
    assert("error"@.len() == 5);
    assert("message"@.len() == 7);
    assert("code"@.len() == 4 && "code"@[0] == 'c');
}

/// While nothing is streamed a text is a request, and anything that is no message ends the
/// connection. While a response is streamed a further message is an error, and so is the
/// client's going away.
pub proof fn messages_are_answered(text: Seq<char>, reason: Seq<char>)
    ensures
        crate::gateway::idle_reaction(ClientMessageView::Text(text)) == IdleReactionView::Handle(
            text,
        ),
        crate::gateway::idle_reaction(ClientMessageView::Binary) == IdleReactionView::Refuse(
            WsErrorView::BinaryFrame,
        ),
        crate::gateway::idle_reaction(ClientMessageView::Ping) is Answer,
        crate::gateway::idle_reaction(ClientMessageView::Pong) is Ignore,
        crate::gateway::idle_reaction(ClientMessageView::Close) is Stop,
        crate::gateway::idle_reaction(ClientMessageView::Ended) is Stop,
        crate::gateway::idle_reaction(ClientMessageView::Failed(reason)) is Stop,
        crate::gateway::stream_reaction(ClientMessageView::Text(text)) == StreamReactionView::Fail(
            WsErrorView::ConcurrentMessage,
        ),
        crate::gateway::stream_reaction(ClientMessageView::Binary) == StreamReactionView::Fail(
            WsErrorView::BinaryFrame,
        ),
        crate::gateway::stream_reaction(ClientMessageView::Ping) is Answer,
        crate::gateway::stream_reaction(ClientMessageView::Pong) is Ignore,
        crate::gateway::stream_reaction(ClientMessageView::Close) == StreamReactionView::Fail(
            WsErrorView::ClientDisconnected,
        ),
        crate::gateway::stream_reaction(ClientMessageView::Ended) == StreamReactionView::Fail(
            WsErrorView::ClientDisconnected,
        ),
        crate::gateway::stream_reaction(ClientMessageView::Failed(reason))
            == StreamReactionView::Fail(WsErrorView::Receive(reason)),
{
}

/// A message that asks for a response and is a request is taken as that request, and is always
/// streamed. One that is no JSON, that asks for something else or that is no request is refused
/// with what is wrong.
pub proof fn requests_are_taken(
    fields: Map<Seq<char>, JsonView>,
    request: RequestPayloadView,
    reason: Seq<char>,
    other: Seq<char>,
)
    ensures
        ({
            let value = JsonView::Object(fields);
            let taken = crate::gateway::ws_request(Ok(value), reason);
            let asks = crate::accumulator_laws::says(fields, "type"@, "response.create"@);
            &&& asks && <RequestPayload as FromJson>::of_json(value) == Some(request) ==> taken
                is Ok && taken->Ok_0.stream && taken->Ok_0 == (RequestPayloadView {
                stream: true,
                ..request
            })
            &&& asks && <RequestPayload as FromJson>::of_json(value) is None ==> taken is Err
                && taken->Err_0 == WsRefusalView::InvalidPayload(reason)
            &&& !asks ==> taken is Err && taken->Err_0 is UnexpectedType
        }),
        crate::gateway::ws_request(Err(other), reason) == Err::<RequestPayloadView, WsRefusalView>(
            WsRefusalView::InvalidJson(other),
        ),
{
}

/// The data of a line reaches the client, whatever it is, but for the end mark; an object with a
/// response in it reaches them under the gateway's ids, and any other value as it is.
pub proof fn lines_reach_the_client(
    data: Seq<char>,
    parsed: Result<JsonView, Seq<char>>,
    ids: RequestIdsView,
)
    requires
        crate::text_laws::is_tight(data),
    ensures
        ({
            let line = "data: "@ + data;
            let action = crate::gateway::stream_action(WsEventView::Line(line), parsed, ids);
            &&& data == "[DONE]"@ ==> crate::gateway::line_data(line) is None && action is Wait
            &&& data != "[DONE]"@ ==> crate::gateway::line_data(line) == Some(data)
                && crate::gateway::event_data(WsEventView::Line(line)) == data
            &&& data != "[DONE]"@ && parsed is Err ==> action == WsActionView::Invalid(
                parsed->Err_0,
            )
            &&& data != "[DONE]"@ && parsed is Ok ==> action is Send
            &&& data != "[DONE]"@ && parsed is Ok && !(parsed->Ok_0 is Object) ==> action
                == WsActionView::Send(parsed->Ok_0)
            &&& data != "[DONE]"@ && parsed is Ok && parsed->Ok_0 is Object
                && !parsed->Ok_0->Object_0.contains_key("response"@) ==> action
                == WsActionView::Send(parsed->Ok_0)
        }),
        crate::gateway::stream_action(WsEventView::Shutdown, parsed, ids) == WsActionView::Fail(
            WsErrorView::Shutdown,
        ),
        crate::gateway::stream_action(WsEventView::Ended, parsed, ids) is Finish,
{
    crate::text_laws::prefixes_are_beginnings("data: "@, data, Seq::empty());
    assert(("data: "@ + data).skip("data: "@.len() as int) =~= data);
    crate::text_laws::ends_are_trimmed(Seq::empty(), data, Seq::empty());
    assert(Seq::<char>::empty() + data + Seq::<char>::empty() =~= data);
}

/// A response in an event has the gateway's ids, and everything else of it and of the event as
/// it was.
pub proof fn responses_are_sent_under_the_gateways_ids(
    fields: Map<Seq<char>, JsonView>,
    response: Map<Seq<char>, JsonView>,
    ids: RequestIdsView,
)
    requires
        fields.contains_key("response"@),
        fields["response"@] == JsonView::Object(response),
    ensures
        ({
            let sent = crate::gateway::sent_for(Ok(JsonView::Object(fields)), ids);
            let after = sent->Send_0->Object_0;
            let shown = after["response"@]->Object_0;
            &&& sent is Send && sent->Send_0 is Object
            &&& after.contains_key("response"@) && after["response"@] is Object
            &&& crate::accumulator_laws::says(shown, "id"@, ids.response_id)
            &&& ids.previous_response_id is Some ==> crate::accumulator_laws::says(
                shown,
                "previous_response_id"@,
                ids.previous_response_id->0,
            )
            &&& ids.conversation_id is Some ==> crate::accumulator_laws::says(
                shown,
                "conversation_id"@,
                ids.conversation_id->0,
            )
            &&& forall|key: Seq<char>|
                #![trigger shown[key]]
                response.contains_key(key) && key != "id"@ && key != "previous_response_id"@ && key
                    != "conversation_id"@ ==> shown.contains_key(key) && shown[key]
                    == response[key]
            &&& forall|key: Seq<char>|
                #![trigger after[key]]
                fields.contains_key(key) && key != "response"@ ==> after.contains_key(key)
                    && after[key] == fields[key]
        }),
{
    reveal_strlit("id");
    reveal_strlit("previous_response_id");
    reveal_strlit("conversation_id");
    assert("id"@.len() == 2);
    assert("previous_response_id"@.len() == 20);
    assert("conversation_id"@.len() == 15);
}

/// A request is executed, unless it says that its response is not to be stored: then it is
/// passed on.
pub proof fn only_unstored_requests_are_passed_on(fields: Map<Seq<char>, JsonView>)
    ensures
        ({
            let route = crate::gateway::route_of(Some(JsonView::Object(fields)));
            &&& route is Proxy <==> fields.contains_key("store"@) && fields["store"@]
                == JsonView::Bool(false)
            &&& route is Execute || route is Proxy
        }),
        crate::gateway::route_of(None) is Execute,
{
}

/// The token of an authorization header is what follows its scheme, whole; a header of another
/// scheme has none.
pub proof fn tokens_are_read_whole(token: Seq<char>, header: Seq<char>)
    ensures
        token.len() > 0 ==> crate::gateway::bearer_of(Some("Bearer "@ + token)) == Some(token),
        !crate::text::has_prefix(header, "Bearer "@) ==> crate::gateway::bearer_of(Some(header))
            is None,
        crate::gateway::bearer_of(Some("Bearer "@)) is None,
        crate::gateway::bearer_of(None) is None,
{
    crate::text_laws::prefixes_are_beginnings("Bearer "@, token, Seq::empty());
    assert(("Bearer "@ + token).skip("Bearer "@.len() as int) =~= token);
}

/// A kept response is that of the lines that were read, under the gateway's ids.
pub proof fn kept_responses_have_the_gateways_ids(
    read: AccumulatorView,
    ids: RequestIdsView,
    created_at: i64,
    model: Seq<char>,
    instructions: Option<Seq<char>>,
)
    ensures
        ({
            let kept = crate::gateway::kept_response(read, ids, created_at, model, instructions);
            let end = crate::accumulator::all_ended(read);
            &&& kept.id == ids.response_id && kept.previous_response_id
                == ids.previous_response_id && kept.conversation_id == ids.conversation_id
            &&& kept.created_at == created_at && kept.model == model && kept.instructions
                == instructions
            &&& kept.output == end.output && kept.usage == read.usage && kept.error == read.error
            &&& read.status is Completed ==> kept.status == "completed"@
            &&& read.status is Incomplete ==> kept.status == "incomplete"@
        }),
{
    crate::accumulator_laws::items_reach_the_output(read);
}

/// A conversation that was made says its identity and when it was made, that it is one, and
/// nothing of its own.
pub proof fn conversations_say_what_they_are(id: Seq<char>, created_at: i64)
    ensures
        ({
            let json = crate::gateway::conversation(id, created_at);
            let fields = json->Object_0;
            &&& json is Object
            &&& crate::accumulator_laws::says(fields, "id"@, id)
            &&& crate::accumulator_laws::says(fields, "object"@, "conversation"@)
            &&& fields.contains_key("created_at"@) && fields["created_at"@] == JsonView::Number(
                crate::json::integer_text(created_at as int),
            )
            &&& fields.contains_key("metadata"@) && fields["metadata"@] == JsonView::Object(
                Map::empty(),
            )
        }),
{
    reveal_strlit("id");
    reveal_strlit("object");
    reveal_strlit("created_at");
    reveal_strlit("metadata");
    assert("id"@.len() == 2 && "object"@.len() == 6);
    assert("created_at"@.len() == 10 && "metadata"@.len() == 8);
}

} // verus!
