//! What the client sees of an upstream server's stream: which events it is shown, which
//! wait, and which it never sees.
use vstd::prelude::*;

use crate::accumulator::ResponseAccumulator;
#[allow(unused_imports)]
use crate::accumulator::AccumulatorView;
use crate::data::{copy_opt, copy_vec, same_opt, same_vec, Data};
use crate::error::ExecutorError;
#[allow(unused_imports)]
use crate::error::ExecutorErrorView;
use crate::events::{synthetic_event, EventFrame, EventPayload, SSEEventType, SSEItemType};
#[allow(unused_imports)]
use crate::events::{EventFrameView, EventPayloadView, WireEventView};
#[allow(unused_imports)]
use crate::json::{Json, JsonObject, JsonView};
use crate::payload::ResponsePayload;
#[allow(unused_imports)]
use crate::payload::ResponsePayloadView;
use crate::registry::ToolRegistry;
#[allow(unused_imports)]
use crate::registry::ToolRegistryView;
use crate::tables::{Keys, Table};
use crate::text::same_text;
use crate::tool_search::{
    restore_loaded_namespace_response_wire, restore_response_wire, TOOL_SEARCH_NAME,
};
use crate::tools::{ResponsesTool, ToolSearchExecution};
#[allow(unused_imports)]
use crate::tools::ResponsesToolView;

verus! {

/// The ids that the gateway gives to a response.
#[derive(Debug, Clone, PartialEq)]
pub struct RequestIds {
    pub response_id: String,
    pub previous_response_id: Option<String>,
    pub conversation_id: Option<String>,
}

/// The view of a [`RequestIds`].
#[verifier::ext_equal]
pub struct RequestIdsView {
    pub response_id: Seq<char>,
    pub previous_response_id: Option<Seq<char>>,
    pub conversation_id: Option<Seq<char>>,
}

impl View for RequestIds {
    type V = RequestIdsView;

    open spec fn view(&self) -> RequestIdsView {
        RequestIdsView {
            response_id: self.response_id@,
            previous_response_id: crate::data::opt_view(self.previous_response_id),
            conversation_id: crate::data::opt_view(self.conversation_id),
        }
    }
}

impl Data for RequestIds {
    fn copied(&self) -> (out: RequestIds) {
        RequestIds {
            response_id: self.response_id.copied(),
            previous_response_id: copy_opt(&self.previous_response_id),
            conversation_id: copy_opt(&self.conversation_id),
        }
    }

    fn same(&self, other: &RequestIds) -> (yes: bool) {
        self.response_id.same(&other.response_id)
            && same_opt(&self.previous_response_id, &other.previous_response_id)
            && same_opt(&self.conversation_id, &other.conversation_id)
    }
}

/// Events that are held back.
#[derive(Debug, Clone, PartialEq)]
pub struct FrameList {
    pub frames: Vec<EventFrame>,
}

/// The view of a [`FrameList`].
#[verifier::ext_equal]
pub struct FrameListView {
    pub frames: Seq<EventFrameView>,
}

impl View for FrameList {
    type V = FrameListView;

    open spec fn view(&self) -> FrameListView {
        FrameListView {
            frames: crate::data::views(self.frames@),
        }
    }
}

impl Data for FrameList {
    fn copied(&self) -> (out: FrameList) {
        FrameList {
            frames: copy_vec(&self.frames),
        }
    }

    fn same(&self, other: &FrameList) -> (yes: bool) {
        same_vec(&self.frames, &other.frames)
    }
}

/// What an upstream server said of a response that failed.
#[derive(Debug, Clone, PartialEq)]
pub struct UpstreamFailure {
    pub upstream_response_id: String,
    pub error_code: String,
    pub error_message: String,
    pub incomplete_reason: String,
}

/// The view of a [`UpstreamFailure`].
#[verifier::ext_equal]
pub struct UpstreamFailureView {
    pub upstream_response_id: Seq<char>,
    pub error_code: Seq<char>,
    pub error_message: Seq<char>,
    pub incomplete_reason: Seq<char>,
}

impl View for UpstreamFailure {
    type V = UpstreamFailureView;

    open spec fn view(&self) -> UpstreamFailureView {
        UpstreamFailureView {
            upstream_response_id: self.upstream_response_id@,
            error_code: self.error_code@,
            error_message: self.error_message@,
            incomplete_reason: self.incomplete_reason@,
        }
    }
}

impl Data for UpstreamFailure {
    fn copied(&self) -> (out: UpstreamFailure) {
        UpstreamFailure {
            upstream_response_id: self.upstream_response_id.copied(),
            error_code: self.error_code.copied(),
            error_message: self.error_message.copied(),
            incomplete_reason: self.incomplete_reason.copied(),
        }
    }

    fn same(&self, other: &UpstreamFailure) -> (yes: bool) {
        self.upstream_response_id.same(&other.upstream_response_id)
            && self.error_code.same(&other.error_code)
            && self.error_message.same(&other.error_message)
            && self.incomplete_reason.same(&other.incomplete_reason)
    }
}

/// The fields of a response under the gateway's ids.
pub open spec fn response_with_ids(response: Map<Seq<char>, JsonView>, ids: RequestIdsView) -> Map<
    Seq<char>,
    JsonView,
> {
    crate::wire::with_text(
        crate::wire::with_text(
            response.insert("id"@, JsonView::Text(ids.response_id)),
            "previous_response_id"@,
            ids.previous_response_id,
        ),
        "conversation_id"@,
        ids.conversation_id,
    )
}

/// The fields of an event with its response, where it has one, under the gateway's ids.
pub open spec fn with_ids(fields: Map<Seq<char>, JsonView>, ids: RequestIdsView) -> Map<
    Seq<char>,
    JsonView,
> {
    match crate::json::object_field(fields, "response"@) {
        Some(JsonView::Object(response)) => fields.insert(
            "response"@,
            JsonView::Object(response_with_ids(response, ids)),
        ),
        _ => fields,
    }
}

/// Puts the response of an event, where it has one, under the gateway's ids.
pub fn apply_context_response_ids(fields: &mut JsonObject, ids: &RequestIds)
    ensures
        final(fields)@ == with_ids(old(fields)@, ids@),
{
    let mut response = match fields.get("response") {
        Some(Json::Object(response)) => response.copy(),
        _ => {
            return;
        },
    };
    response.set_str("id", ids.response_id.as_str());
    crate::wire::set_text(&mut response, "previous_response_id", &ids.previous_response_id);
    crate::wire::set_text(&mut response, "conversation_id", &ids.conversation_id);
    fields.set("response", Json::Object(response));
}

/// Puts the response of an event that is given as JSON under the gateway's ids.
pub fn apply_gateway_response_ids(value: &mut Json, ids: &RequestIds)
    ensures
        final(value)@ == (match old(value)@ {
            JsonView::Object(fields) => JsonView::Object(with_ids(fields, ids@)),
            other => other,
        }),
{
    let mut fields = match &*value {
        Json::Object(fields) => fields.copy(),
        _ => {
            return;
        },
    };
    apply_context_response_ids(&mut fields, ids);
    *value = Json::Object(fields);
}

/// A finished response under the gateway's ids.
pub open spec fn payload_with_ids(
    payload: ResponsePayloadView,
    ids: RequestIdsView,
) -> ResponsePayloadView {
    ResponsePayloadView {
        id: ids.response_id,
        conversation_id: ids.conversation_id,
        previous_response_id: ids.previous_response_id,
        ..payload
    }
}

/// Puts a finished response under the gateway's ids.
pub fn apply_gateway_payload_ids(payload: &mut ResponsePayload, ids: &RequestIds)
    ensures
        final(payload)@ == payload_with_ids(old(payload)@, ids@),
{
    payload.id = ids.response_id.clone();
    payload.conversation_id = copy_opt(&ids.conversation_id);
    payload.previous_response_id = copy_opt(&ids.previous_response_id);
}

/// The response that a blocking body is, made at a time.
pub open spec fn blocking_response(
    body: Result<JsonView, Seq<char>>,
    ids: RequestIdsView,
    created_at: i64,
    model: Seq<char>,
    instructions: Option<Seq<char>>,
) -> Result<ResponsePayloadView, ExecutorErrorView> {
    match crate::accumulator::accumulator_of_json(body, ids.conversation_id) {
        Err(e) => Err(e),
        Ok(accumulator) => Ok(
            payload_with_ids(
                crate::accumulator::response_of(
                    accumulator,
                    created_at,
                    model,
                    ids.previous_response_id,
                    instructions,
                ),
                ids,
            ),
        ),
    }
}

/// The response that a parsed blocking body is, made at a time.
pub fn blocking_payload_at(
    body: &Result<Json, String>,
    ids: &RequestIds,
    created_at: i64,
    model: &str,
    instructions: Option<String>,
) -> (out: Result<ResponsePayload, ExecutorError>)
    ensures
        crate::error::outcome(out) == blocking_response(
            crate::json::read_view(*body),
            ids@,
            created_at,
            model@,
            crate::data::opt_view(instructions),
        ),
{
    match ResponseAccumulator::from_parsed(body, copy_opt(&ids.conversation_id)) {
        Err(e) => Err(e),
        Ok(accumulator) => {
            let mut payload = accumulator.finalize_at(
                created_at,
                model,
                copy_opt(&ids.previous_response_id),
                instructions,
            );
            apply_gateway_payload_ids(&mut payload, ids);
            Ok(payload)
        },
    }
}

/// The response that a blocking body is.
pub fn blocking_payload(
    body: &str,
    ids: &RequestIds,
    model: &str,
    instructions: Option<String>,
) -> (out: Result<
    ResponsePayload,
    ExecutorError,
>)
    ensures
        exists|created_at: i64|
            crate::error::outcome(out) == #[trigger] blocking_response(
                crate::json::read_json(body@),
                ids@,
                created_at,
                model@,
                crate::data::opt_view(instructions),
            ),
{
    let now: i64 = crate::ids::now_seconds();
    let parsed = Json::read(body);
    blocking_payload_at(&parsed, ids, now, model, instructions)
}

/// What is said of a response that failed. What is not said is empty.
pub open spec fn failure_of(frame: EventFrameView) -> Option<UpstreamFailureView> {
    if frame.event_type != SSEEventType::ResponseFailed {
        None
    } else {
        let response = match crate::json::object_field(frame.wire.rest, "response"@) {
            Some(response) => response,
            None => JsonView::Null,
        };
        let error = crate::json::field(response, "error"@);
        let details = crate::json::field(response, "incomplete_details"@);
        Some(
            UpstreamFailureView {
                upstream_response_id: text_or_none(crate::json::field(response, "id"@)),
                error_code: text_within(error, "code"@),
                error_message: match error {
                    Some(JsonView::Text(text)) => text,
                    _ => text_within(error, "message"@),
                },
                incomplete_reason: text_within(details, "reason"@),
            },
        )
    }
}

/// A text, or nothing.
pub open spec fn text_or_none(value: Option<JsonView>) -> Seq<char> {
    match crate::json::text_of(value) {
        Some(text) => text,
        None => Seq::empty(),
    }
}

/// A text within a value, or nothing.
pub open spec fn text_within(value: Option<JsonView>, key: Seq<char>) -> Seq<char> {
    match value {
        Some(v) => text_or_none(crate::json::field(v, key)),
        None => Seq::empty(),
    }
}

fn text_in(value: Option<&Json>, key: &str) -> (text: String)
    ensures
        text@ == text_within(crate::json::ref_view(value), key@),
{
    if let Some(value) = value {
        if let Some(text) = value.get_str(key) {
            return text.to_owned();
        }
    }
    String::new()
}

/// What an upstream server said of a response that failed.
pub fn upstream_failure(frame: &EventFrame) -> (failure: Option<UpstreamFailure>)
    ensures
        crate::data::opt_view(failure) == failure_of(frame@),
{
    if frame.event_type != SSEEventType::ResponseFailed {
        return None;
    }
    let response = frame.wire.rest.get("response");
    let (error, details) = match response {
        Some(response) => (response.get("error"), response.get("incomplete_details")),
        None => (None, None),
    };
    Some(
        UpstreamFailure {
            upstream_response_id: text_in(response, "id"),
            error_code: text_in(error, "code"),
            error_message: match error {
                Some(Json::Text(text)) => text.clone(),
                _ => text_in(error, "message"),
            },
            incomplete_reason: text_in(details, "reason"),
        },
    )
}

/// Whether a declaration is of a search that the client runs.
pub open spec fn is_client_search(tool: ResponsesToolView) -> bool {
    tool matches ResponsesToolView::ToolSearch(search) && search.execution == Some(
        ToolSearchExecution::Client,
    )
}

/// Whether a search that the client runs is declared.
pub open spec fn client_search_declared(tools: Seq<ResponsesToolView>) -> bool {
    exists|i: int| 0 <= i < tools.len() && is_client_search(#[trigger] tools[i])
}

/// Whether a search that the client runs is declared. Only then is a call of the search
/// function given back as a search.
pub fn declares_client_search(tools: &Vec<ResponsesTool>) -> (yes: bool)
    ensures
        yes == client_search_declared(crate::data::views(tools@)),
{
    let ghost all = crate::data::views(tools@);
    let mut i: usize = 0;
    while i < tools.len()
        invariant
            i <= tools@.len(),
            all == crate::data::views(tools@),
            forall|j: int| 0 <= j < i ==> !is_client_search(#[trigger] all[j]),
        decreases tools@.len() - i,
    {
        proof {
            assert(all[i as int] == tools@[i as int]@);
        }
        if let ResponsesTool::ToolSearch(search) = &tools[i] {
            if search.execution == Some(ToolSearchExecution::Client) {
                proof {
                    assert(is_client_search(all[i as int]));
                }
                return true;
            }
        }
        i = i + 1;
    }
    false
}

/// How events are shown: under which ids, whether calls of the search function are given
/// back as searches, of which namespaces loaded members are, and after how many items of
/// earlier rounds.
#[derive(Debug)]
pub struct StreamRules {
    pub ids: RequestIds,
    pub restore_search: bool,
    pub loaded_namespaces: Table<String, String>,
    pub output_offset: u64,
}

/// The view of a [`StreamRules`].
#[verifier::ext_equal]
pub struct StreamRulesView {
    pub ids: RequestIdsView,
    pub restore_search: bool,
    pub loaded_namespaces: Map<Seq<char>, Seq<char>>,
    pub output_offset: u64,
}

impl View for StreamRules {
    type V = StreamRulesView;

    open spec fn view(&self) -> StreamRulesView {
        StreamRulesView {
            ids: self.ids@,
            restore_search: self.restore_search,
            loaded_namespaces: self.loaded_namespaces@,
            output_offset: self.output_offset,
        }
    }
}

/// The state of one round's stream.
#[derive(Debug)]
pub struct UpstreamStream {
    /// The items that are calls of the gateway's own tools.
    pub hidden: Keys<String>,
    /// The items that are calls of the search function, given back as searches.
    pub fallback: Keys<String>,
    /// The events of calls whose names are not known yet.
    pub pending: Table<String, FrameList>,
    /// The first place that a call of the gateway's own tools has.
    pub defer_from: Option<u64>,
    /// The events that wait until the gateway's own tools have run.
    pub deferred: Vec<EventFrame>,
    /// The number of the next event.
    pub sequence: u64,
    /// The events to send.
    pub sent: Vec<EventFrame>,
}

/// The view of an [`UpstreamStream`].
#[verifier::ext_equal]
pub struct UpstreamStreamView {
    pub hidden: Set<Seq<char>>,
    pub fallback: Set<Seq<char>>,
    pub pending: Map<Seq<char>, FrameListView>,
    pub defer_from: Option<u64>,
    pub deferred: Seq<EventFrameView>,
    pub sequence: u64,
    pub sent: Seq<EventFrameView>,
}

impl View for UpstreamStream {
    type V = UpstreamStreamView;

    open spec fn view(&self) -> UpstreamStreamView {
        UpstreamStreamView {
            hidden: self.hidden@,
            fallback: self.fallback@,
            pending: self.pending@,
            defer_from: self.defer_from,
            deferred: crate::data::views(self.deferred@),
            sequence: self.sequence,
            sent: crate::data::views(self.sent@),
        }
    }
}

/// A sum that does not grow past what the numbers hold.
pub open spec fn capped_sum(a: u64, b: u64) -> u64 {
    if a + b > u64::MAX {
        u64::MAX
    } else {
        (a + b) as u64
    }
}

/// An event as the client is shown it.
pub open spec fn shown(
    registry: ToolRegistryView,
    rules: StreamRulesView,
    sequence: u64,
    frame: EventFrameView,
) -> EventFrameView {
    let named = WireEventView { rest: with_ids(frame.wire.rest, rules.ids), ..frame.wire };
    let searched = if rules.restore_search {
        crate::tool_search::restored_event(None, named)
    } else {
        named
    };
    let placed = crate::tool_search::restored_event(Some(rules.loaded_namespaces), searched);
    let restored = WireEventView {
        rest: crate::registry::event_fields(registry, placed.rest),
        ..placed
    };
    EventFrameView {
        wire: WireEventView {
            sequence_number: Some(sequence),
            output_index: match restored.output_index {
                Some(index) => Some(capped_sum(index, rules.output_offset)),
                None => None,
            },
            ..restored
        },
        ..frame
    }
}

/// The state after an event was sent.
pub open spec fn with_sent(
    registry: ToolRegistryView,
    rules: StreamRulesView,
    s: UpstreamStreamView,
    frame: EventFrameView,
) -> UpstreamStreamView {
    UpstreamStreamView {
        sequence: capped_sum(s.sequence, 1),
        sent: s.sent.push(shown(registry, rules, s.sequence, frame)),
        ..s
    }
}

/// Whether an event waits: its place is not before the first call of a tool that the
/// gateway runs.
pub open spec fn waits(s: UpstreamStreamView, frame: EventFrameView) -> bool {
    s.defer_from matches Some(first) && frame.wire.output_index matches Some(index) && index >= first
}

/// The state after an event was sent or made to wait.
pub open spec fn sent_or_deferred(
    registry: ToolRegistryView,
    rules: StreamRulesView,
    s: UpstreamStreamView,
    frame: EventFrameView,
) -> UpstreamStreamView {
    if waits(s, frame) {
        UpstreamStreamView { deferred: s.deferred.push(frame), ..s }
    } else {
        with_sent(registry, rules, s, frame)
    }
}

/// The state after the first `n` of some events were each sent or made to wait.
pub open spec fn all_sent_or_deferred(
    registry: ToolRegistryView,
    rules: StreamRulesView,
    s: UpstreamStreamView,
    frames: Seq<EventFrameView>,
    n: int,
) -> UpstreamStreamView
    decreases n,
{
    if n <= 0 {
        s
    } else {
        sent_or_deferred(
            registry,
            rules,
            all_sent_or_deferred(registry, rules, s, frames, n - 1),
            frames[n - 1],
        )
    }
}

/// The state after the first `n` of some events were sent.
pub open spec fn all_sent(
    registry: ToolRegistryView,
    rules: StreamRulesView,
    s: UpstreamStreamView,
    frames: Seq<EventFrameView>,
    n: int,
) -> UpstreamStreamView
    decreases n,
{
    if n <= 0 {
        s
    } else {
        with_sent(registry, rules, all_sent(registry, rules, s, frames, n - 1), frames[n - 1])
    }
}

/// The fields of the item of a search that has begun.
pub open spec fn begun_search_item(call_id: Seq<char>) -> Map<Seq<char>, JsonView> {
    Map::<Seq<char>, JsonView>::empty().insert("type"@, JsonView::Text("tool_search_call"@)).insert(
        "execution"@,
        JsonView::Text("client"@),
    ).insert("call_id"@, JsonView::Text(call_id)).insert("status"@, JsonView::Text("in_progress"@)).insert(
        "arguments"@,
        JsonView::Object(Map::empty()),
    )
}

/// The event that a search has begun.
pub open spec fn begun_search(call_id: Seq<char>, output_index: u32) -> EventFrameView {
    crate::events::synthetic(
        SSEEventType::OutputItemAdded,
        output_index,
        Map::<Seq<char>, JsonView>::empty().insert(
            "item"@,
            JsonView::Object(begun_search_item(call_id)),
        ),
    )
}

/// The event that a search has begun.
pub fn fallback_tool_search_added_frame(call_id: &str, output_index: u32) -> (frame: EventFrame)
    ensures
        frame@ == begun_search(call_id@, output_index),
{
    let mut item = JsonObject::new();
    item.set_str("type", "tool_search_call");
    item.set_str("execution", "client");
    item.set_str("call_id", call_id);
    item.set_str("status", "in_progress");
    item.set("arguments", Json::Object(JsonObject::new()));
    let mut fields = JsonObject::new();
    fields.set("item", Json::Object(item));
    synthetic_event(SSEEventType::OutputItemAdded, output_index, fields)
}

/// Whether an item's first held event shows a call in no namespace.
pub open spec fn held_unqualified(
    pending: Map<Seq<char>, FrameListView>,
    item_id: Seq<char>,
) -> bool {
    pending.contains_key(item_id) && pending[item_id].frames.len() > 0 && (
    pending[item_id].frames[0].payload matches EventPayloadView::OutputItemAdded {
        item_type,
        namespace,
        ..
    } && item_type == SSEItemType::FunctionCall && namespace is None)
}

fn pending_function_is_unqualified(
    item_id: &String,
    pending: &Table<String, FrameList>,
) -> (yes: bool)
    ensures
        yes == held_unqualified(pending@, item_id@),
{
    if let Some(list) = pending.get(item_id) {
        if list.frames.len() > 0 {
            proof {
                assert(list@.frames[0] == list.frames@[0]@);
            }
            if let EventPayload::OutputItemAdded { item_type, namespace, .. } = &list.frames[0].payload {
                return *item_type == SSEItemType::FunctionCall && namespace.is_none();
            }
        }
    }
    false
}

/// Whether an item is a call of the search function in no namespace.
pub open spec fn is_search_item(item: JsonView) -> bool {
    &&& crate::json::text_of(crate::json::field(item, "name"@)) == Some("tool_search"@)
    &&& crate::json::text_of(crate::json::field(item, "namespace"@)) is None
}

fn is_unqualified_tool_search_function(item: &Json) -> (yes: bool)
    ensures
        yes == is_search_item(item@),
{
    item.field_is("name", TOOL_SEARCH_NAME) && item.get_str("namespace").is_none()
}

/// The state once it is known that an item is a search which has begun.
pub open spec fn with_search(
    registry: ToolRegistryView,
    rules: StreamRulesView,
    s: UpstreamStreamView,
    item_id: Seq<char>,
    call_id: Seq<char>,
    output_index: u32,
) -> UpstreamStreamView {
    sent_or_deferred(
        registry,
        rules,
        UpstreamStreamView { fallback: s.fallback.insert(item_id), ..s },
        begun_search(call_id, output_index),
    )
}

/// The state after an event was held against the searches, and whether that is all that
/// the event does.
pub open spec fn fallback_step(
    registry: ToolRegistryView,
    rules: StreamRulesView,
    s: UpstreamStreamView,
    frame: EventFrameView,
) -> (UpstreamStreamView, bool) {
    if !rules.restore_search {
        (s, false)
    } else {
        match frame.payload {
            EventPayloadView::OutputItemAdded {
                item_id,
                item_type,
                name,
                namespace,
                call_id,
                ..
            } => if frame.event_type
                == SSEEventType::OutputItemAdded && item_type == SSEItemType::FunctionCall && name
                == Some(
                    "tool_search"@,
                ) && namespace is None && (call_id matches Some(id) && id.len()
                > 0) {
                (UpstreamStreamView { fallback: s.fallback.insert(item_id), ..s }, false)
            } else {
                (s, false)
            },
            EventPayloadView::FunctionCallArgsDelta { item_id, .. } => (
                s,
                is_arguments_event(frame.event_type) && s.fallback.contains(item_id),
            ),
            EventPayloadView::FunctionCallArgsDone {
                item_id,
                call_id,
                name,
                output_index,
                ..
            } => if is_arguments_event(
            frame.event_type) && s.fallback.contains(item_id) {
                (s, true)
            } else {
                match call_id {
                    Some(id) if frame.event_type == SSEEventType::FunctionCallArgumentsDone && name
                        == "tool_search"@ && id.len() > 0 && held_unqualified(
                            s.pending,
                            item_id,
                        ) => (
                        with_search(
                            registry,
                            rules,
                            UpstreamStreamView { pending: s.pending.remove(item_id), ..s },
                            item_id,
                            id,
                            output_index,
                        ),
                        true,
                    ),
                    _ => (s, false),
                }
            },
            EventPayloadView::OutputItemDone {
                item_id,
                item_type,
                item,
                output_index,
            } => if frame.event_type
                == SSEEventType::OutputItemDone && item_type == SSEItemType::FunctionCall
                && is_search_item(item) {
                let begun = match crate::json::text_of(crate::json::field(item, "call_id"@)) {
                    Some(id) if !s.fallback.contains(item_id) && id.len() > 0 => with_search(
                        registry,
                        rules,
                        s,
                        item_id,
                        id,
                        output_index,
                    ),
                    _ => s,
                };
                (UpstreamStreamView { pending: begun.pending.remove(item_id), ..begun }, false)
            } else {
                (s, false)
            },
            _ => (s, false),
        }
    }
}

/// Whether an event is of a call's arguments.
pub open spec fn is_arguments_event(event_type: SSEEventType) -> bool {
    event_type == SSEEventType::FunctionCallArgumentsDelta || event_type
        == SSEEventType::FunctionCallArgumentsDone
}

/// The state after an event at a place that a call of the gateway's own tools has.
pub open spec fn with_hidden_place(
    s: UpstreamStreamView,
    frame: EventFrameView,
) -> UpstreamStreamView {
    match frame.wire.output_index {
        Some(index) if s.defer_from is None || index < s.defer_from->0 => UpstreamStreamView {
            defer_from: Some(index),
            ..s
        },
        _ => s,
    }
}

/// The name of the call that an event adds.
pub open spec fn added_call(frame: EventFrameView) -> Option<Seq<char>> {
    match frame.payload {
        EventPayloadView::OutputItemAdded { item_type, name, .. } => if item_type
            == SSEItemType::FunctionCall {
            name
        } else {
            None
        },
        _ => None,
    }
}

/// The state after a call of the gateway's own tools was noted.
pub open spec fn place_step(
    registry: ToolRegistryView,
    s: UpstreamStreamView,
    frame: EventFrameView,
) -> UpstreamStreamView {
    match added_call(frame) {
        Some(name) if crate::registry::gateway_owned_name(registry, name) => with_hidden_place(
            s,
            frame,
        ),
        _ => s,
    }
}

/// The state after an event was held against the hidden items, and whether it is hidden.
pub open spec fn hide_step(
    registry: ToolRegistryView,
    s: UpstreamStreamView,
    frame: EventFrameView,
) -> (
    UpstreamStreamView,
    bool,
) {
    match frame.payload {
        EventPayloadView::OutputItemAdded { item_id, .. } => match added_call(frame) {
            Some(name) if frame.event_type == SSEEventType::OutputItemAdded
                && crate::registry::gateway_owned_name(registry, name) => (
                UpstreamStreamView { hidden: s.hidden.insert(item_id), ..s },
                true,
            ),
            _ => (s, false),
        },
        EventPayloadView::OutputItemDone { item_id, item_type, .. } => (
            s,
            frame.event_type == SSEEventType::OutputItemDone && item_type == SSEItemType::FunctionCall
                && s.hidden.contains(item_id),
        ),
        EventPayloadView::FunctionCallArgsDelta { item_id, .. } => (
            s,
            is_arguments_event(frame.event_type) && s.hidden.contains(item_id),
        ),
        EventPayloadView::FunctionCallArgsDone { item_id, .. } => (
            s,
            is_arguments_event(frame.event_type) && s.hidden.contains(item_id),
        ),
        _ => (s, false),
    }
}

/// Whether an event ends a response.
pub open spec fn ends_response(event_type: SSEEventType) -> bool {
    event_type == SSEEventType::ResponseCompleted || event_type == SSEEventType::ResponseFailed
        || event_type == SSEEventType::ResponseIncomplete
}

/// The item whose held events an event that is not shown takes away.
pub open spec fn dropped_item(payload: EventPayloadView) -> Option<Seq<char>> {
    match payload {
        EventPayloadView::OutputItemDone { item_id, .. } => Some(item_id),
        EventPayloadView::FunctionCallArgsDelta { item_id, .. } => Some(item_id),
        EventPayloadView::FunctionCallArgsDone { item_id, .. } => Some(item_id),
        _ => None,
    }
}

/// The events that are held for an item.
pub open spec fn held(
    pending: Map<Seq<char>, FrameListView>,
    item_id: Seq<char>,
) -> Seq<EventFrameView> {
    if pending.contains_key(item_id) {
        pending[item_id].frames
    } else {
        Seq::empty()
    }
}

/// The state with one more event held for an item.
pub open spec fn with_held(
    s: UpstreamStreamView,
    item_id: Seq<char>,
    frame: EventFrameView,
) -> UpstreamStreamView {
    UpstreamStreamView {
        pending: s.pending.insert(
            item_id,
            FrameListView { frames: held(s.pending, item_id).push(frame) },
        ),
        ..s
    }
}

/// The state after the events that were held for an item were sent or made to wait.
pub open spec fn flushed(
    registry: ToolRegistryView,
    rules: StreamRulesView,
    s: UpstreamStreamView,
    item_id: Seq<char>,
) -> UpstreamStreamView {
    let frames = held(s.pending, item_id);
    all_sent_or_deferred(
        registry,
        rules,
        UpstreamStreamView { pending: s.pending.remove(item_id), ..s },
        frames,
        frames.len() as int,
    )
}

/// The state once a call turned out to be of the gateway's own tools.
pub open spec fn found_hidden(
    s: UpstreamStreamView,
    item_id: Seq<char>,
    frame: EventFrameView,
) -> UpstreamStreamView {
    let placed = with_hidden_place(
        UpstreamStreamView { hidden: s.hidden.insert(item_id), ..s },
        frame,
    );
    UpstreamStreamView { pending: placed.pending.remove(item_id), ..placed }
}

/// The state after an event of a call, and whether the event itself goes on. The events of
/// a call wait until its name is known.
pub open spec fn function_step(
    registry: ToolRegistryView,
    rules: StreamRulesView,
    s: UpstreamStreamView,
    frame: EventFrameView,
) -> (UpstreamStreamView, bool) {
    match frame.payload {
        EventPayloadView::OutputItemAdded { item_id, item_type, name, .. } => if item_type
            == SSEItemType::FunctionCall && name is None {
            (with_held(s, item_id, frame), false)
        } else {
            (s, true)
        },
        EventPayloadView::FunctionCallArgsDelta {
            item_id,
            ..
        } => if s.pending.contains_key(item_id) {
            (with_held(s, item_id, frame), false)
        } else {
            (s, true)
        },
        EventPayloadView::FunctionCallArgsDone {
            item_id,
            name,
            ..
        } => if crate::registry::gateway_owned_name(
            registry,
            name,
        ) {
            (found_hidden(s, item_id, frame), false)
        } else {
            (flushed(registry, rules, s, item_id), true)
        },
        EventPayloadView::OutputItemDone { item_id, item_type, item, .. } => if item_type
            == SSEItemType::FunctionCall {
            match crate::json::text_of(crate::json::field(item, "name"@)) {
                Some(name) if crate::registry::gateway_owned_name(registry, name) => (
                    found_hidden(s, item_id, frame),
                    false,
                ),
                _ => (flushed(registry, rules, s, item_id), true),
            }
        } else {
            (s, true)
        },
        _ => (s, true),
    }
}

/// The state after an event of the upstream server's stream.
pub open spec fn upstream_step(
    registry: ToolRegistryView,
    rules: StreamRulesView,
    s: UpstreamStreamView,
    frame: EventFrameView,
) -> UpstreamStreamView {
    let (searched, handled) = fallback_step(registry, rules, s, frame);
    if handled {
        searched
    } else {
        let (hidden, hide) = hide_step(registry, place_step(registry, searched, frame), frame);
        if hide || ends_response(frame.event_type) {
            match dropped_item(frame.payload) {
                Some(item_id) => UpstreamStreamView {
                    pending: hidden.pending.remove(item_id),
                    ..hidden
                },
                None => hidden,
            }
        } else {
            let (stepped, goes_on) = function_step(registry, rules, hidden, frame);
            if goes_on {
                sent_or_deferred(registry, rules, stepped, frame)
            } else {
                stepped
            }
        }
    }
}

/// The state of a stream that has not begun.
pub open spec fn fresh_stream(sequence: u64) -> UpstreamStreamView {
    UpstreamStreamView {
        hidden: Set::empty(),
        fallback: Set::empty(),
        pending: Map::empty(),
        defer_from: None,
        deferred: Seq::empty(),
        sequence,
        sent: Seq::empty(),
    }
}

impl UpstreamStream {
    /// A stream that has not begun, whose first event has a number.
    pub fn new(sequence: u64) -> (stream: UpstreamStream)
        ensures
            stream@ == fresh_stream(sequence),
    {
        let stream = UpstreamStream {
            hidden: Keys::new(),
            fallback: Keys::new(),
            pending: Table::new(),
            defer_from: None,
            deferred: Vec::new(),
            sequence,
            sent: Vec::new(),
        };
        proof {
            assert(stream@ =~= fresh_stream(sequence));
        }
        stream
    }

    /// Takes an event of the upstream server's stream.
    pub fn accept(&mut self, frame: EventFrame, registry: &ToolRegistry, rules: &StreamRules)
        ensures
            final(self)@ == upstream_step(registry@, rules@, old(self)@, frame@),
    {
        if self.handle_fallback_tool_search_event(&frame, registry, rules) {
            return;
        }
        self.defer_after_gateway_call(&frame, registry);
        let hide = self.should_hide_upstream_event(&frame, registry);
        let ends = match frame.event_type {
            SSEEventType::ResponseCompleted
            | SSEEventType::ResponseFailed
            | SSEEventType::ResponseIncomplete => true,
            _ => false,
        };
        if hide || ends {
            self.drop_pending_function_events(&frame.payload);
            return;
        }
        if self.defer_or_flush_function_event(&frame, registry, rules) {
            self.emit_or_defer_stream_frame(frame, registry, rules);
        }
    }

    /// Sends the events that waited for the gateway's own tools.
    pub fn emit_deferred_stream_events(&mut self, registry: &ToolRegistry, rules: &StreamRules)
        ensures
            final(self)@ == all_sent(
                registry@,
                rules@,
                UpstreamStreamView { deferred: Seq::empty(), ..old(self)@ },
                old(self)@.deferred,
                old(self)@.deferred.len() as int,
            ),
    {
        let ghost all = self@.deferred;
        let frames = copy_vec(&self.deferred);
        self.deferred = Vec::new();
        let ghost start = UpstreamStreamView { deferred: Seq::empty(), ..old(self)@ };
        proof {
            assert(self@ =~= start);
            assert(all.len() == frames@.len());
        }
        let mut i: usize = 0;
        while i < frames.len()
            invariant
                i <= frames@.len(),
                all == crate::data::views(frames@),
                self@ == all_sent(registry@, rules@, start, all, i as int),
            decreases frames@.len() - i,
        {
            proof {
                assert(all[i as int] == frames@[i as int]@);
            }
            self.emit_stream_frame(frames[i].copied(), registry, rules);
            i = i + 1;
        }
    }

    /// Hands out the events to send.
    pub fn take_sent(&mut self) -> (frames: Vec<EventFrame>)
        ensures
            crate::data::views(frames@) == old(self)@.sent,
            final(self)@ == (UpstreamStreamView { sent: Seq::empty(), ..old(self)@ }),
    {
        let frames = copy_vec(&self.sent);
        self.sent = Vec::new();
        proof {
            assert(self@ =~= (UpstreamStreamView { sent: Seq::empty(), ..old(self)@ }));
        }
        frames
    }

    fn emit_stream_frame(&mut self, frame: EventFrame, registry: &ToolRegistry, rules: &StreamRules)
        ensures
            final(self)@ == with_sent(registry@, rules@, old(self)@, frame@),
    {
        let mut frame = frame;
        let mut wire = frame.wire.copied();
        apply_context_response_ids(&mut wire.rest, &rules.ids);
        let _ = restore_response_wire(&mut wire, rules.restore_search);
        let _ = restore_loaded_namespace_response_wire(&mut wire, &rules.loaded_namespaces);
        let _ = registry.restore_stream_event_wire(&mut wire);
        wire.sequence_number = Some(self.sequence);
        if let Some(index) = wire.output_index {
            wire.output_index = Some(index.saturating_add(rules.output_offset));
        }
        frame.wire = wire;
        proof {
            crate::data::views_push(self.sent@, frame);
        }
        self.sequence = self.sequence.saturating_add(1);
        self.sent.push(frame);
    }

    fn emit_or_defer_stream_frame(
        &mut self,
        frame: EventFrame,
        registry: &ToolRegistry,
        rules: &StreamRules,
    )
        ensures
            final(self)@ == sent_or_deferred(registry@, rules@, old(self)@, frame@),
    {
        let waiting = match (self.defer_from, frame.wire.output_index) {
            (Some(first), Some(index)) => index >= first,
            _ => false,
        };
        if waiting {
            proof {
                crate::data::views_push(self.deferred@, frame);
            }
            self.deferred.push(frame);
        } else {
            self.emit_stream_frame(frame, registry, rules);
        }
    }

    fn begin_search(
        &mut self,
        item_id: &String,
        call_id: &str,
        output_index: u32,
        registry: &ToolRegistry,
        rules: &StreamRules,
    )
        ensures
            final(self)@ == with_search(
                registry@,
                rules@,
                old(self)@,
                item_id@,
                call_id@,
                output_index,
            ),
    {
        let _ = self.fallback.insert(item_id.clone());
        let added = fallback_tool_search_added_frame(call_id, output_index);
        self.emit_or_defer_stream_frame(added, registry, rules);
    }

    fn handle_fallback_tool_search_event(
        &mut self,
        frame: &EventFrame,
        registry: &ToolRegistry,
        rules: &StreamRules,
    ) -> (handled: bool)
        ensures
            (final(self)@, handled) == fallback_step(registry@, rules@, old(self)@, frame@),
    {
        if !rules.restore_search {
            return false;
        }
        let arguments_event = match frame.event_type {
            SSEEventType::FunctionCallArgumentsDelta | SSEEventType::FunctionCallArgumentsDone => true,
            _ => false,
        };
        match &frame.payload {
            EventPayload::OutputItemAdded { item_id, item_type, name, namespace, call_id, .. } => {
                let named = match name {
                    Some(name) => same_text(name.as_str(), TOOL_SEARCH_NAME),
                    None => false,
                };
                let called = match call_id {
                    Some(id) => !id.as_str().is_empty(),
                    None => false,
                };
                if frame.event_type == SSEEventType::OutputItemAdded && *item_type
                    == SSEItemType::FunctionCall && named && namespace.is_none() && called {
                    let _ = self.fallback.insert(item_id.clone());
                }
                false
            },
            EventPayload::FunctionCallArgsDelta { item_id, .. } => arguments_event
                && self.fallback.contains(item_id),
            EventPayload::FunctionCallArgsDone { item_id, call_id, name, output_index, .. } => {
                if arguments_event && self.fallback.contains(item_id) {
                    return true;
                }
                if let Some(id) = call_id {
                    if frame.event_type == SSEEventType::FunctionCallArgumentsDone && same_text(
                        name.as_str(),
                        TOOL_SEARCH_NAME,
                    ) && !id.as_str().is_empty() && pending_function_is_unqualified(
                        item_id,
                        &self.pending,
                    ) {
                        let _ = self.pending.remove(item_id);
                        self.begin_search(item_id, id.as_str(), *output_index, registry, rules);
                        return true;
                    }
                }
                false
            },
            EventPayload::OutputItemDone { item_id, item_type, item, output_index } => {
                if frame.event_type == SSEEventType::OutputItemDone && *item_type
                    == SSEItemType::FunctionCall && is_unqualified_tool_search_function(item) {
                    if !self.fallback.contains(item_id) {
                        if let Some(id) = item.get_str("call_id") {
                            if !id.is_empty() {
                                self.begin_search(item_id, id, *output_index, registry, rules);
                            }
                        }
                    }
                    let _ = self.pending.remove(item_id);
                }
                false
            },
            _ => false,
        }
    }

    fn record_first_hidden_gateway_output_index(&mut self, frame: &EventFrame)
        ensures
            final(self)@ == with_hidden_place(old(self)@, frame@),
    {
        if let Some(index) = frame.wire.output_index {
            let first = match self.defer_from {
                Some(first) => index < first,
                None => true,
            };
            if first {
                self.defer_from = Some(index);
            }
        }
    }

    fn defer_after_gateway_call(&mut self, frame: &EventFrame, registry: &ToolRegistry)
        ensures
            final(self)@ == place_step(registry@, old(self)@, frame@),
    {
        if let EventPayload::OutputItemAdded { item_type, name, .. } = &frame.payload {
            if *item_type == SSEItemType::FunctionCall {
                if let Some(name) = name {
                    if registry.is_gateway_owned_name(name.as_str()) {
                        self.record_first_hidden_gateway_output_index(frame);
                    }
                }
            }
        }
    }

    fn should_hide_upstream_event(
        &mut self,
        frame: &EventFrame,
        registry: &ToolRegistry,
    ) -> (hide: bool)
        ensures
            (final(self)@, hide) == hide_step(registry@, old(self)@, frame@),
    {
        let arguments_event = match frame.event_type {
            SSEEventType::FunctionCallArgumentsDelta | SSEEventType::FunctionCallArgumentsDone => true,
            _ => false,
        };
        match &frame.payload {
            EventPayload::OutputItemAdded { item_id, item_type, name, .. } => {
                if frame.event_type == SSEEventType::OutputItemAdded && *item_type
                    == SSEItemType::FunctionCall {
                    if let Some(name) = name {
                        if registry.is_gateway_owned_name(name.as_str()) {
                            let _ = self.hidden.insert(item_id.clone());
                            return true;
                        }
                    }
                }
                false
            },
            EventPayload::OutputItemDone { item_id, item_type, .. } => frame.event_type
                == SSEEventType::OutputItemDone && *item_type == SSEItemType::FunctionCall
                && self.hidden.contains(item_id),
            EventPayload::FunctionCallArgsDelta { item_id, .. } => arguments_event
                && self.hidden.contains(item_id),
            EventPayload::FunctionCallArgsDone { item_id, .. } => arguments_event
                && self.hidden.contains(item_id),
            _ => false,
        }
    }

    fn drop_pending_function_events(&mut self, payload: &EventPayload)
        ensures
            final(self)@ == (match dropped_item(payload@) {
                Some(item_id) => UpstreamStreamView {
                    pending: old(self)@.pending.remove(item_id),
                    ..old(self)@
                },
                None => old(self)@,
            }),
    {
        match payload {
            EventPayload::OutputItemDone { item_id, .. }
            | EventPayload::FunctionCallArgsDelta { item_id, .. }
            | EventPayload::FunctionCallArgsDone { item_id, .. } => {
                let _ = self.pending.remove(item_id);
            },
            _ => {},
        }
    }

    fn hold(&mut self, item_id: &String, frame: &EventFrame)
        ensures
            final(self)@ == with_held(old(self)@, item_id@, frame@),
    {
        let mut frames: Vec<EventFrame> = match self.pending.get(item_id) {
            Some(list) => copy_vec(&list.frames),
            None => Vec::new(),
        };
        let frame = frame.copied();
        proof {
            assert(crate::data::views(frames@) =~= held(self@.pending, item_id@));
            crate::data::views_push(frames@, frame);
        }
        frames.push(frame);
        self.pending.insert(item_id.clone(), FrameList { frames });
    }

    fn flush_pending_function_events(
        &mut self,
        item_id: &String,
        registry: &ToolRegistry,
        rules: &StreamRules,
    )
        ensures
            final(self)@ == flushed(registry@, rules@, old(self)@, item_id@),
    {
        let ghost frames = held(self@.pending, item_id@);
        let ghost start = UpstreamStreamView { pending: self@.pending.remove(item_id@), ..self@ };
        let list = match self.pending.remove(item_id) {
            Some(list) => list.frames,
            None => Vec::new(),
        };
        proof {
            assert(crate::data::views(list@) =~= frames);
            assert(frames.len() == list@.len());
        }
        let mut i: usize = 0;
        while i < list.len()
            invariant
                i <= list@.len(),
                frames == crate::data::views(list@),
                self@ == all_sent_or_deferred(registry@, rules@, start, frames, i as int),
            decreases list@.len() - i,
        {
            proof {
                assert(frames[i as int] == list@[i as int]@);
            }
            self.emit_or_defer_stream_frame(list[i].copied(), registry, rules);
            i = i + 1;
        }
    }

    fn find_hidden(&mut self, item_id: &String, frame: &EventFrame)
        ensures
            final(self)@ == found_hidden(old(self)@, item_id@, frame@),
    {
        let _ = self.hidden.insert(item_id.clone());
        self.record_first_hidden_gateway_output_index(frame);
        let _ = self.pending.remove(item_id);
    }

    fn defer_or_flush_function_event(
        &mut self,
        frame: &EventFrame,
        registry: &ToolRegistry,
        rules: &StreamRules,
    ) -> (goes_on: bool)
        ensures
            (final(self)@, goes_on) == function_step(registry@, rules@, old(self)@, frame@),
    {
        match &frame.payload {
            EventPayload::OutputItemAdded { item_id, item_type, name, .. } => {
                if *item_type == SSEItemType::FunctionCall && name.is_none() {
                    self.hold(item_id, frame);
                    return false;
                }
                true
            },
            EventPayload::FunctionCallArgsDelta { item_id, .. } => {
                if self.pending.contains_key(item_id) {
                    self.hold(item_id, frame);
                    return false;
                }
                true
            },
            EventPayload::FunctionCallArgsDone { item_id, name, .. } => {
                if registry.is_gateway_owned_name(name.as_str()) {
                    self.find_hidden(item_id, frame);
                    return false;
                }
                self.flush_pending_function_events(item_id, registry, rules);
                true
            },
            EventPayload::OutputItemDone { item_id, item_type, item, .. } => {
                if *item_type != SSEItemType::FunctionCall {
                    return true;
                }
                if let Some(name) = item.get_str("name") {
                    if registry.is_gateway_owned_name(name) {
                        self.find_hidden(item_id, frame);
                        return false;
                    }
                }
                self.flush_pending_function_events(item_id, registry, rules);
                true
            },
            _ => true,
        }
    }
}

/// One round of a streamed response: what the model has said, and what the client sees.
pub struct StreamRound {
    pub accumulator: ResponseAccumulator,
    pub stream: UpstreamStream,
}

/// The view of a [`StreamRound`].
#[verifier::ext_equal]
pub struct StreamRoundView {
    pub accumulator: AccumulatorView,
    pub stream: UpstreamStreamView,
}

impl View for StreamRound {
    type V = StreamRoundView;

    open spec fn view(&self) -> StreamRoundView {
        StreamRoundView { accumulator: self.accumulator@, stream: self.stream@ }
    }
}

/// A round's response, and the events that wait until the gateway's own tools have run.
#[derive(Debug)]
pub struct StreamPayload {
    pub payload: ResponsePayload,
    pub deferred_events: Vec<EventFrame>,
}

/// The round after a line of the upstream server's stream.
pub open spec fn round_step(
    registry: ToolRegistryView,
    rules: StreamRulesView,
    round: StreamRoundView,
    line: Seq<char>,
    fresh: Seq<char>,
) -> StreamRoundView {
    match crate::events::line_frame(line) {
        None => round,
        Some(frame) => StreamRoundView {
            accumulator: crate::accumulator::line_step(round.accumulator, line, fresh),
            stream: upstream_step(registry, rules, round.stream, frame),
        },
    }
}

/// The response of a round that has ended, made at a time.
pub open spec fn round_response(
    round: StreamRoundView,
    ids: RequestIdsView,
    created_at: i64,
    model: Seq<char>,
    instructions: Option<Seq<char>>,
) -> ResponsePayloadView {
    payload_with_ids(
        crate::accumulator::response_of(
            crate::accumulator::stream_ended(round.accumulator),
            created_at,
            model,
            ids.previous_response_id,
            instructions,
        ),
        ids,
    )
}

impl StreamRound {
    /// A round that has not begun.
    pub fn new(ids: &RequestIds, sequence: u64) -> (round: StreamRound)
        ensures
            round@ == (StreamRoundView {
                accumulator: crate::accumulator::fresh_accumulator(
                    ids@.response_id,
                    ids@.conversation_id,
                ),
                stream: fresh_stream(sequence),
            }),
    {
        StreamRound {
            accumulator: ResponseAccumulator::new(
                ids.response_id.clone(),
                copy_opt(&ids.conversation_id),
            ),
            stream: UpstreamStream::new(sequence),
        }
    }

    /// Takes a line of the upstream server's stream.
    pub fn take_line(&mut self, line: &str, registry: &ToolRegistry, rules: &StreamRules)
        ensures
            exists|fresh: Seq<char>|
                crate::ids::is_uuid7(fresh) && final(self)@ == #[trigger] round_step(
                    registry@,
                    rules@,
                    old(self)@,
                    line@,
                    fresh,
                ),
    {
        let ghost start = self@;
        match self.accumulator.process_sse_line(line) {
            Some(frame) => {
                proof {
                    let fresh = choose|fresh: Seq<char>|
                        crate::ids::is_uuid7(fresh) && self.accumulator@ == #[trigger] crate::accumulator::line_step(
                            start.accumulator,
                            line@,
                            fresh,
                        );
                    assert(round_step(registry@, rules@, start, line@, fresh).accumulator
                        == self.accumulator@);
                }
                self.stream.accept(frame, registry, rules);
            },
            None => {
                proof {
                    crate::ids::uuids_exist();
                    let uuid = choose|uuid: Seq<char>| crate::ids::is_uuid7(uuid);
                    assert(self@ =~= round_step(registry@, rules@, start, line@, uuid));
                }
            },
        }
    }

    /// Ends the round, at a time.
    pub fn finish_at(
        self,
        ids: &RequestIds,
        created_at: i64,
        model: &str,
        instructions: Option<String>,
    ) -> (out: StreamPayload)
        ensures
            out.payload@ == round_response(
                self@,
                ids@,
                created_at,
                model@,
                crate::data::opt_view(instructions),
            ),
            crate::data::views(out.deferred_events@) == self@.stream.deferred,
    {
        let mut accumulator = self.accumulator;
        accumulator.finish_stream();
        let mut payload = accumulator.finalize_at(
            created_at,
            model,
            copy_opt(&ids.previous_response_id),
            instructions,
        );
        apply_gateway_payload_ids(&mut payload, ids);
        StreamPayload { payload, deferred_events: self.stream.deferred }
    }

    /// Ends the round.
    pub fn finish(
        self,
        ids: &RequestIds,
        model: &str,
        instructions: Option<String>,
    ) -> (out: StreamPayload)
        ensures
            out.payload@ == round_response(
                self@,
                ids@,
                out.payload@.created_at,
                model@,
                crate::data::opt_view(instructions),
            ),
            crate::data::views(out.deferred_events@) == self@.stream.deferred,
    {
        let now: i64 = crate::ids::now_seconds();
        self.finish_at(ids, now, model, instructions)
    }
}

/// A call of a tool that the gateway runs is neither shown nor made to wait.
pub proof fn gateway_calls_are_hidden(
    registry: ToolRegistryView,
    rules: StreamRulesView,
    s: UpstreamStreamView,
    frame: EventFrameView,
)
    requires
        frame.event_type == SSEEventType::OutputItemAdded,
        added_call(frame) matches Some(name) && crate::registry::gateway_owned_name(registry, name),
    ensures
        upstream_step(registry, rules, s, frame).sent == s.sent,
        upstream_step(registry, rules, s, frame).deferred == s.deferred,
        frame.payload matches EventPayloadView::OutputItemAdded { item_id, .. } ==> upstream_step(
            registry,
            rules,
            s,
            frame,
        ).hidden.contains(item_id),
{
}

/// What follows of a hidden call is neither shown nor made to wait, unless it shows that the
/// call is a search which has begun.
pub proof fn hidden_calls_stay_hidden(
    registry: ToolRegistryView,
    rules: StreamRulesView,
    s: UpstreamStreamView,
    frame: EventFrameView,
)
    requires
        fallback_step(registry, rules, s, frame).0.fallback == s.fallback,
        match frame.payload {
            EventPayloadView::FunctionCallArgsDelta { item_id, .. } => s.hidden.contains(item_id)
                && is_arguments_event(frame.event_type),
            EventPayloadView::FunctionCallArgsDone { item_id, .. } => s.hidden.contains(item_id)
                && is_arguments_event(frame.event_type),
            EventPayloadView::OutputItemDone {
                item_id,
                item_type,
                ..
            } => s.hidden.contains(item_id)
                && item_type == SSEItemType::FunctionCall && frame.event_type
                == SSEEventType::OutputItemDone,
            _ => false,
        },
    ensures
        upstream_step(registry, rules, s, frame).sent == s.sent,
        upstream_step(registry, rules, s, frame).deferred == s.deferred,
{
}

/// No event at or after the place of a hidden call is sent before the deferred ones are.
pub proof fn places_after_hidden_calls_wait(
    registry: ToolRegistryView,
    rules: StreamRulesView,
    s: UpstreamStreamView,
    frame: EventFrameView,
)
    requires
        waits(s, frame),
    ensures
        sent_or_deferred(registry, rules, s, frame).sent == s.sent,
        sent_or_deferred(registry, rules, s, frame).deferred == s.deferred.push(frame),
{
}

/// The end of a response is never passed on: the gateway tells of it itself.
pub proof fn response_ends_are_not_passed_on(
    registry: ToolRegistryView,
    rules: StreamRulesView,
    s: UpstreamStreamView,
    frame: EventFrameView,
)
    requires
        ends_response(frame.event_type),
        frame.payload is Response,
    ensures
        upstream_step(registry, rules, s, frame).sent == s.sent,
        upstream_step(registry, rules, s, frame).deferred == s.deferred,
{
}

/// The number of the event that comes `n` events after one with the number `first`. Numbers
/// do not grow past what they can hold.
pub open spec fn number_after(first: u64, n: int) -> u64 {
    if first + n > u64::MAX {
        u64::MAX
    } else {
        (first + n) as u64
    }
}

/// Whether a later state has sent what an earlier one had sent, and then events whose
/// numbers go on one by one.
pub open spec fn counts_on(before: UpstreamStreamView, after: UpstreamStreamView) -> bool {
    &&& before.sent.len() <= after.sent.len()
    &&& after.sequence == number_after(
        before.sequence,
        after.sent.len() - before.sent.len(),
    )
    &&& forall|i: int|
        0 <= i < before.sent.len() ==> #[trigger] after.sent[i] == before.sent[i]
    &&& forall|i: int|
        before.sent.len() <= i < after.sent.len() ==> (
        #[trigger] after.sent[i]).wire.sequence_number == Some(
            number_after(before.sequence, i - before.sent.len()),
        )
}

proof fn all_events_count_on(
    registry: ToolRegistryView,
    rules: StreamRulesView,
    s: UpstreamStreamView,
    frames: Seq<EventFrameView>,
    n: int,
)
    ensures
        counts_on(s, all_sent_or_deferred(registry, rules, s, frames, n)),
        counts_on(s, all_sent(registry, rules, s, frames, n)),
    decreases n,
{
    if n > 0 {
        all_events_count_on(registry, rules, s, frames, n - 1);
    }
}

/// The events of a stream are numbered one by one in the order in which they are sent,
/// whatever arrives, and so are those that had to wait.
pub proof fn events_are_numbered_in_order(
    registry: ToolRegistryView,
    rules: StreamRulesView,
    s: UpstreamStreamView,
    frame: EventFrameView,
    waiting: Seq<EventFrameView>,
)
    ensures
        counts_on(s, upstream_step(registry, rules, s, frame)),
        counts_on(s, all_sent(registry, rules, s, waiting, waiting.len() as int)),
{
    all_events_count_on(registry, rules, s, waiting, waiting.len() as int);
    let (searched, handled) = fallback_step(registry, rules, s, frame);
    assert(counts_on(s, searched));
    let (hidden, hide) = hide_step(registry, place_step(registry, searched, frame), frame);
    assert(hidden.sent == searched.sent && hidden.sequence == searched.sequence);
    let (stepped, goes_on) = function_step(registry, rules, hidden, frame);
    match dropped_item(frame.payload) {
        Some(item_id) => {
            let frames = held(hidden.pending, item_id);
            let emptied = UpstreamStreamView { pending: hidden.pending.remove(item_id), ..hidden };
            all_events_count_on(registry, rules, emptied, frames, frames.len() as int);
        },
        None => {},
    }
    assert(counts_on(hidden, stepped));
}

} // verus!
