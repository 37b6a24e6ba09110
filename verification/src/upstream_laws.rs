//! What clients are sent of a model round: which events pass, in what order, and under whose
//! ids.
use vstd::prelude::*;

#[allow(unused_imports)]
use crate::error::ExecutorErrorView;
#[allow(unused_imports)]
use crate::events::{EventFrameView, EventPayloadView, SSEEventType, SSEItemType};
#[allow(unused_imports)]
use crate::json::JsonView;
#[allow(unused_imports)]
use crate::payload::ResponsePayloadView;
#[allow(unused_imports)]
use crate::registry::ToolRegistryView;
#[allow(unused_imports)]
use crate::tools::{ResponsesToolView, ToolSearchExecution};
#[allow(unused_imports)]
use crate::upstream::{
    FrameListView, RequestIdsView, StreamRoundView, StreamRulesView, UpstreamStreamView,
};

verus! {

/// Whether the gateway runs the tool that a name stands for.
pub open spec fn gateway_runs(registry: ToolRegistryView, name: Seq<char>) -> bool {
    registry.entries.contains_key(name) && (registry.entries[name].tool_type is Mcp
        || registry.entries[name].tool_type is WebSearch || registry.entries[name].tool_type
        is FileSearch || registry.entries[name].tool_type is CodeInterpreter)
}

/// Whether a field of an event can hold calls or a response.
pub open spec fn holds_items(key: Seq<char>) -> bool {
    key == "item"@ || key == "response"@ || key == "payload"@ || key == "output"@
}

/// The place of an event behind what was shown of earlier rounds. Places do not grow past what
/// they can hold.
pub open spec fn place_behind(index: Option<u64>, offset: u64) -> Option<u64> {
    match index {
        Some(i) => Some(
            if i + offset > u64::MAX {
                u64::MAX
            } else {
                (i + offset) as u64
            },
        ),
        None => None,
    }
}

/// Whether an event is another as a client is sent it: of the same kind and with the same
/// contents, numbered, and its place counted on.
pub open spec fn is_sent_form(
    sent: EventFrameView,
    frame: EventFrameView,
    sequence: u64,
    rules: StreamRulesView,
) -> bool {
    &&& sent.event_type == frame.event_type
    &&& sent.payload == frame.payload
    &&& sent.wire.event_type == frame.wire.event_type
    &&& sent.wire.sequence_number == Some(sequence)
    &&& sent.wire.output_index == place_behind(frame.wire.output_index, rules.output_offset)
    &&& forall|key: Seq<char>|
        !holds_items(key) ==> (#[trigger] sent.wire.rest.contains_key(key)
            <==> frame.wire.rest.contains_key(key))
    &&& forall|key: Seq<char>|
        !holds_items(key) && frame.wire.rest.contains_key(key) ==> #[trigger] sent.wire.rest[key]
            == frame.wire.rest[key]
}

/// Whether an event waits until the calls of the gateway have run.
pub open spec fn must_wait(s: UpstreamStreamView, frame: EventFrameView) -> bool {
    match (s.defer_from, frame.wire.output_index) {
        (Some(first), Some(index)) => first <= index,
        _ => false,
    }
}

/// Whether a step adds one event, and nothing else of what a client sees: behind those that
/// wait where it must wait, else behind those that were sent, in its sent form.
pub open spec fn adds_one(
    before: UpstreamStreamView,
    after: UpstreamStreamView,
    frame: EventFrameView,
    rules: StreamRulesView,
) -> bool {
    if must_wait(before, frame) {
        &&& after.deferred == before.deferred.push(frame)
        &&& after.sent == before.sent
    } else {
        &&& after.deferred == before.deferred
        &&& after.sent.len() == before.sent.len() + 1
        &&& after.sent.drop_last() == before.sent
        &&& is_sent_form(after.sent.last(), frame, before.sequence, rules)
    }
}

/// Whether an event begins, goes on with or ends a function call.
pub open spec fn is_call_event(frame: EventFrameView) -> bool {
    match frame.payload {
        EventPayloadView::OutputItemAdded { item_type, .. } => item_type is FunctionCall,
        EventPayloadView::OutputItemDone { item_type, .. } => item_type is FunctionCall,
        EventPayloadView::FunctionCallArgsDelta { .. } => true,
        EventPayloadView::FunctionCallArgsDone { .. } => true,
        _ => false,
    }
}

/// Whether an event is the end of a response.
pub open spec fn is_response_end(frame: EventFrameView) -> bool {
    frame.event_type is ResponseCompleted || frame.event_type is ResponseFailed || frame.event_type
        is ResponseIncomplete
}

/// What a client is sent of an event is the event itself, but for its number, its place, and the
/// calls and the response in it.
pub proof fn events_keep_their_contents(
    registry: ToolRegistryView,
    rules: StreamRulesView,
    sequence: u64,
    frame: EventFrameView,
)
    ensures
        is_sent_form(
            crate::upstream::shown(registry, rules, sequence, frame),
            frame,
            sequence,
            rules,
        ),
{
}

/// An item that is no function call is sent as it is.
pub proof fn other_items_are_sent_as_they_are(
    registry: ToolRegistryView,
    rules: StreamRulesView,
    sequence: u64,
    frame: EventFrameView,
)
    requires
        frame.wire.rest.contains_key("item"@),
        frame.wire.rest["item"@] matches JsonView::Object(item) && crate::json::text_field(
            item,
            "type"@,
        ) != Some("function_call"@),
    ensures
        crate::upstream::shown(registry, rules, sequence, frame).wire.rest.contains_key("item"@),
        crate::upstream::shown(registry, rules, sequence, frame).wire.rest["item"@]
            == frame.wire.rest["item"@],
{
    field_names_differ();
}

proof fn field_names_differ()
    ensures
        "item"@ != "response"@,
        "item"@ != "payload"@,
        "item"@ != "output"@,
        "response"@ != "payload"@,
        "response"@ != "output"@,
        "payload"@ != "output"@,
        "id"@ != "previous_response_id"@,
        "id"@ != "conversation_id"@,
        "previous_response_id"@ != "conversation_id"@,
        "id"@ != "item"@,
        "id"@ != "response"@,
        "id"@ != "payload"@,
        "id"@ != "output"@,
        "id"@ != "tools"@,
        "previous_response_id"@ != "item"@,
        "previous_response_id"@ != "response"@,
        "previous_response_id"@ != "payload"@,
        "previous_response_id"@ != "output"@,
        "previous_response_id"@ != "tools"@,
        "conversation_id"@ != "item"@,
        "conversation_id"@ != "response"@,
        "conversation_id"@ != "payload"@,
        "conversation_id"@ != "output"@,
        "conversation_id"@ != "tools"@,
        "type"@ != "id"@,
        "type"@ != "previous_response_id"@,
        "type"@ != "conversation_id"@,
        "type"@ != "item"@,
        "type"@ != "response"@,
        "type"@ != "payload"@,
        "type"@ != "output"@,
{
    reveal_strlit("item");
    reveal_strlit("response");
    reveal_strlit("payload");
    reveal_strlit("output");
    reveal_strlit("id");
    reveal_strlit("previous_response_id");
    reveal_strlit("conversation_id");
    reveal_strlit("tools");
    reveal_strlit("type");
    assert("id"@.len() == 2);
    assert("item"@.len() == 4 && "item"@[0] == 'i');
    assert("type"@.len() == 4 && "type"@[0] == 't');
    assert("tools"@.len() == 5);
    assert("output"@.len() == 6);
    assert("payload"@.len() == 7);
    assert("response"@.len() == 8);
    assert("conversation_id"@.len() == 15);
    assert("previous_response_id"@.len() == 20);
}

proof fn tools_differ_from_output()
    ensures
        "tools"@ != "output"@,
        "tools"@ != "response"@,
        "tools"@ != "item"@,
{
    reveal_strlit("tools");
    reveal_strlit("output");
    reveal_strlit("response");
    reveal_strlit("item");
    assert("tools"@.len() == 5);
    assert("output"@.len() == 6);
    assert("response"@.len() == 8);
    assert("item"@.len() == 4);
}

proof fn restored_responses_keep_their_fields(
    namespaces: Option<Map<Seq<char>, Seq<char>>>,
    fields: Map<Seq<char>, JsonView>,
)
    requires
        fields.contains_key("response"@),
        fields["response"@] matches JsonView::Object(response) && crate::json::text_field(
            response,
            "type"@,
        ) != Some("function_call"@),
    ensures
        crate::tool_search::restored_value(namespaces, JsonView::Object(fields), false)
            matches JsonView::Object(after) && after.contains_key("response"@) && (
        after["response"@] matches JsonView::Object(response) && forall|key: Seq<char>|
            !holds_items(key) ==> (#[trigger] response.contains_key(key)
                == fields["response"@]->Object_0.contains_key(key)) && response[key]
                == fields["response"@]->Object_0[key]),
{
    field_names_differ();
    reveal_with_fuel(crate::tool_search::restored_value, 3);
}

/// The response in an event is sent under the gateway's id, and under the ids of what it goes on
/// from where there are any.
pub proof fn responses_are_sent_under_the_gateways_ids(
    registry: ToolRegistryView,
    rules: StreamRulesView,
    sequence: u64,
    frame: EventFrameView,
)
    requires
        frame.wire.rest.contains_key("response"@),
        frame.wire.rest["response"@] matches JsonView::Object(response) && crate::json::text_field(
            response,
            "type"@,
        ) != Some("function_call"@),
    ensures
        ({
            let rest = crate::upstream::shown(registry, rules, sequence, frame).wire.rest;
            let before = frame.wire.rest["response"@]->Object_0;
            &&& rest.contains_key("response"@)
            &&& rest["response"@] matches JsonView::Object(response) && {
                &&& crate::json::text_field(response, "id"@) == Some(rules.ids.response_id)
                &&& rules.ids.previous_response_id matches Some(id) ==> crate::json::text_field(
                    response,
                    "previous_response_id"@,
                ) == Some(id)
                &&& rules.ids.conversation_id matches Some(id) ==> crate::json::text_field(
                    response,
                    "conversation_id"@,
                ) == Some(id)
                &&& forall|key: Seq<char>|
                    !holds_items(key) && key != "id"@ && key != "previous_response_id"@ && key
                        != "conversation_id"@ && key != "tools"@ && before.contains_key(key)
                        ==> #[trigger] response.contains_key(key) && response[key] == before[key]
            }
        }),
{
    field_names_differ();
    let named = crate::upstream::with_ids(frame.wire.rest, rules.ids);
    let before = frame.wire.rest["response"@]->Object_0;
    let told = named["response"@]->Object_0;
    assert(crate::json::text_field(told, "type"@) == crate::json::text_field(before, "type"@));
    restored_responses_keep_their_fields(None, named);
    let searched = if rules.restore_search {
        crate::tool_search::restored_value(None, JsonView::Object(named), false)->Object_0
    } else {
        named
    };
    let found = searched["response"@]->Object_0;
    assert(found.contains_key("type"@) == told.contains_key("type"@));
    assert(crate::json::text_field(found, "type"@) == crate::json::text_field(told, "type"@));
    restored_responses_keep_their_fields(Some(rules.loaded_namespaces), searched);
    let placed = crate::tool_search::restored_value(
        Some(rules.loaded_namespaces),
        JsonView::Object(searched),
        false,
    )->Object_0;
    let last = placed["response"@]->Object_0;
    assert(last.contains_key("id"@) && found.contains_key("id"@) && told.contains_key("id"@));
    assert(last.contains_key("previous_response_id"@) == told.contains_key(
        "previous_response_id"@,
    )) by {
        assert(found.contains_key("previous_response_id"@) == told.contains_key(
            "previous_response_id"@,
        ));
    }
    assert(last.contains_key("conversation_id"@) == told.contains_key("conversation_id"@)) by {
        assert(found.contains_key("conversation_id"@) == told.contains_key("conversation_id"@));
    }
    let rest = crate::upstream::shown(registry, rules, sequence, frame).wire.rest;
    let response = rest["response"@]->Object_0;
    tools_differ_from_output();
    assert(rest["response"@] is Object);
    assert forall|key: Seq<char>| !holds_items(key) && key != "tools"@ implies #[trigger]
        response.contains_key(key) == last.contains_key(key) && response[key] == last[key] by {}
    assert(response.contains_key("id"@) && response["id"@] == told["id"@]);
    assert(response.contains_key("previous_response_id"@) == last.contains_key(
        "previous_response_id"@,
    ));
    assert(response.contains_key("conversation_id"@) == last.contains_key("conversation_id"@));
    assert forall|key: Seq<char>|
        !holds_items(key) && key != "id"@ && key != "previous_response_id"@ && key
            != "conversation_id"@ && key != "tools"@ && before.contains_key(
            key,
        ) implies #[trigger] response.contains_key(key) && response[key] == before[key] by {
        assert(told.contains_key(key));
        assert(found.contains_key(key));
        assert(last.contains_key(key));
    }
}

/// An event that is of no function call and does not end the response is passed on: it is sent
/// at once, or kept behind those that wait where it must wait.
pub proof fn plain_events_pass(
    registry: ToolRegistryView,
    rules: StreamRulesView,
    s: UpstreamStreamView,
    frame: EventFrameView,
)
    requires
        !is_call_event(frame),
        !is_response_end(frame),
    ensures
        adds_one(s, crate::upstream::upstream_step(registry, rules, s, frame), frame, rules),
        ({
            let after = crate::upstream::upstream_step(registry, rules, s, frame);
            &&& after.hidden == s.hidden
            &&& after.pending == s.pending
            &&& after.defer_from == s.defer_from
        }),
{
    events_keep_their_contents(registry, rules, s.sequence, frame);
    let after = crate::upstream::upstream_step(registry, rules, s, frame);
    if !must_wait(s, frame) {
        assert(after.sent.drop_last() =~= s.sent);
    }
}

/// Whether an event may be taken for one of a search that the model calls as a function.
pub open spec fn may_be_search(s: UpstreamStreamView, frame: EventFrameView) -> bool {
    match frame.payload {
        EventPayloadView::OutputItemAdded { name, .. } => name == Some("tool_search"@),
        EventPayloadView::FunctionCallArgsDelta { item_id, .. } => s.fallback.contains(item_id),
        EventPayloadView::FunctionCallArgsDone { item_id, name, .. } => s.fallback.contains(item_id)
            || name == "tool_search"@,
        EventPayloadView::OutputItemDone { item, .. } => crate::json::text_of(
            crate::json::field(item, "name"@),
        ) == Some("tool_search"@),
        _ => false,
    }
}

/// Every event of a function call that the client runs, and whose name was known when it began,
/// is passed on.
pub proof fn client_calls_pass(
    registry: ToolRegistryView,
    rules: StreamRulesView,
    s: UpstreamStreamView,
    frame: EventFrameView,
)
    requires
        !is_response_end(frame),
        !may_be_search(s, frame),
        match frame.payload {
            EventPayloadView::OutputItemAdded { item_type, name, .. } => item_type is FunctionCall
                && (name matches Some(name) && !gateway_runs(registry, name)),
            EventPayloadView::FunctionCallArgsDelta { item_id, .. } => !s.hidden.contains(item_id)
                && !s.pending.contains_key(item_id),
            EventPayloadView::FunctionCallArgsDone { item_id, name, .. } => !s.hidden.contains(
                item_id,
            ) && !s.pending.contains_key(item_id) && !gateway_runs(registry, name),
            EventPayloadView::OutputItemDone { item_id, item_type, item, .. } => item_type
                is FunctionCall && !s.hidden.contains(item_id) && !s.pending.contains_key(item_id)
                && (crate::json::text_of(crate::json::field(item, "name"@)) matches Some(name)
                ==> !gateway_runs(registry, name)),
            _ => false,
        },
    ensures
        adds_one(s, crate::upstream::upstream_step(registry, rules, s, frame), frame, rules),
{
    events_keep_their_contents(registry, rules, s.sequence, frame);
    let after = crate::upstream::upstream_step(registry, rules, s, frame);
    if let Some(item_id) = crate::upstream::dropped_item(frame.payload) {
        assert(s.pending.remove(item_id) =~= s.pending);
        let none = Seq::<EventFrameView>::empty();
        assert(crate::upstream::all_sent_or_deferred(registry, rules, s, none, 0) == s);
    }
    if !must_wait(s, frame) {
        assert(after.sent.drop_last() =~= s.sent);
    }
}

/// Whether a call's name is not known yet when an event of it arrives.
pub open spec fn is_unnamed(s: UpstreamStreamView, frame: EventFrameView, item_id: Seq<char>) -> bool {
    match frame.payload {
        EventPayloadView::OutputItemAdded { item_id: id, item_type, name, .. } => id == item_id
            && item_type is FunctionCall && name is None,
        EventPayloadView::FunctionCallArgsDelta { item_id: id, .. } => id == item_id
            && s.pending.contains_key(item_id) && !s.hidden.contains(item_id)
            && !s.fallback.contains(item_id),
        _ => false,
    }
}

/// The events of a call whose name is not known are kept in the order in which they arrive, and
/// the client is sent nothing of them.
pub proof fn unnamed_calls_are_kept(
    registry: ToolRegistryView,
    rules: StreamRulesView,
    s: UpstreamStreamView,
    frame: EventFrameView,
    item_id: Seq<char>,
)
    requires
        is_unnamed(s, frame, item_id),
        !is_response_end(frame),
    ensures
        ({
            let after = crate::upstream::upstream_step(registry, rules, s, frame);
            let kept = if s.pending.contains_key(item_id) {
                s.pending[item_id].frames
            } else {
                Seq::empty()
            };
            &&& after.sent == s.sent
            &&& after.deferred == s.deferred
            &&& after.pending.contains_key(item_id)
            &&& after.pending[item_id].frames == kept.push(frame)
        }),
{
}

/// The first `n` of some events that must wait.
pub open spec fn waiting_part(
    s: UpstreamStreamView,
    frames: Seq<EventFrameView>,
    n: int,
) -> Seq<EventFrameView>
    decreases n,
{
    if n <= 0 {
        Seq::empty()
    } else if must_wait(s, frames[n - 1]) {
        waiting_part(s, frames, n - 1).push(frames[n - 1])
    } else {
        waiting_part(s, frames, n - 1)
    }
}

/// The first `n` of some events that need not wait.
pub open spec fn ready_part(
    s: UpstreamStreamView,
    frames: Seq<EventFrameView>,
    n: int,
) -> Seq<EventFrameView>
    decreases n,
{
    if n <= 0 {
        Seq::empty()
    } else if must_wait(s, frames[n - 1]) {
        ready_part(s, frames, n - 1)
    } else {
        ready_part(s, frames, n - 1).push(frames[n - 1])
    }
}

/// The number of the event that comes `n` events after one with the number `first`. Numbers do
/// not grow past what they can hold.
pub open spec fn counted(first: u64, n: int) -> u64 {
    if first + n > u64::MAX {
        u64::MAX
    } else {
        (first + n) as u64
    }
}

/// Whether a step adds some events to what was sent, in their sent form and in their order, and
/// others to what waits.
pub open spec fn adds_all(
    before: UpstreamStreamView,
    after: UpstreamStreamView,
    ready: Seq<EventFrameView>,
    waiting: Seq<EventFrameView>,
    rules: StreamRulesView,
) -> bool {
    &&& after.deferred == before.deferred + waiting
    &&& after.sent.len() == before.sent.len() + ready.len()
    &&& after.sequence == counted(before.sequence, ready.len() as int)
    &&& forall|i: int|
        0 <= i < before.sent.len() ==> #[trigger] after.sent[i] == before.sent[i]
    &&& forall|i: int|
        0 <= i < ready.len() ==> is_sent_form(
            #[trigger] after.sent[before.sent.len() + i],
            ready[i],
            counted(before.sequence, i),
            rules,
        )
}

proof fn kept_events_are_added(
    registry: ToolRegistryView,
    rules: StreamRulesView,
    s: UpstreamStreamView,
    frames: Seq<EventFrameView>,
    n: int,
)
    requires
        0 <= n <= frames.len(),
    ensures
        ({
            let after = crate::upstream::all_sent_or_deferred(registry, rules, s, frames, n);
            &&& adds_all(s, after, ready_part(s, frames, n), waiting_part(s, frames, n), rules)
            &&& after.defer_from == s.defer_from
            &&& after.hidden == s.hidden
            &&& after.fallback == s.fallback
            &&& after.pending == s.pending
        }),
    decreases n,
{
    let after = crate::upstream::all_sent_or_deferred(registry, rules, s, frames, n);
    if n > 0 {
        kept_events_are_added(registry, rules, s, frames, n - 1);
        let before = crate::upstream::all_sent_or_deferred(registry, rules, s, frames, n - 1);
        let last = frames[n - 1];
        let ready = ready_part(s, frames, n);
        let waiting = waiting_part(s, frames, n);
        if must_wait(s, last) {
            assert(s.deferred + waiting =~= (s.deferred + waiting_part(s, frames, n - 1)).push(
                last,
            ));
        } else {
            events_keep_their_contents(registry, rules, before.sequence, last);
            let earlier = ready_part(s, frames, n - 1);
            assert forall|i: int| 0 <= i < ready.len() implies is_sent_form(
                #[trigger] after.sent[s.sent.len() + i],
                ready[i],
                counted(s.sequence, i),
                rules,
            ) by {
                if i < earlier.len() {
                    assert(after.sent[s.sent.len() + i] == before.sent[s.sent.len() + i]);
                }
            }
        }
    } else {
        assert(s.deferred + Seq::<EventFrameView>::empty() =~= s.deferred);
    }
}

/// A call that the client runs and whose name came late is passed on whole: the events that were
/// kept for it come first, in their order, and then the event that names it.
pub proof fn late_names_lose_nothing(
    registry: ToolRegistryView,
    rules: StreamRulesView,
    s: UpstreamStreamView,
    frame: EventFrameView,
)
    requires
        !is_response_end(frame),
        !may_be_search(s, frame),
        match frame.payload {
            EventPayloadView::FunctionCallArgsDone { item_id, name, .. } => !s.hidden.contains(
                item_id,
            ) && s.pending.contains_key(item_id) && !gateway_runs(registry, name),
            EventPayloadView::OutputItemDone { item_id, item_type, item, .. } => item_type
                is FunctionCall && !s.hidden.contains(item_id) && s.pending.contains_key(item_id)
                && (crate::json::text_of(crate::json::field(item, "name"@)) matches Some(name)
                ==> !gateway_runs(registry, name)),
            _ => false,
        },
    ensures
        ({
            let item_id = crate::upstream::dropped_item(frame.payload)->0;
            let kept = s.pending[item_id].frames.push(frame);
            let after = crate::upstream::upstream_step(registry, rules, s, frame);
            &&& adds_all(
                s,
                after,
                ready_part(s, kept, kept.len() as int),
                waiting_part(s, kept, kept.len() as int),
                rules,
            )
            &&& !after.pending.contains_key(item_id)
        }),
{
    let item_id = crate::upstream::dropped_item(frame.payload)->0;
    let frames = s.pending[item_id].frames;
    let kept = frames.push(frame);
    let emptied = UpstreamStreamView { pending: s.pending.remove(item_id), ..s };
    kept_events_are_added(registry, rules, emptied, kept, kept.len() as int);
    same_kept(registry, rules, emptied, frames, kept, frames.len() as int);
    same_parts(s, emptied, kept, kept.len() as int);
    let after = crate::upstream::upstream_step(registry, rules, s, frame);
    assert(after == crate::upstream::all_sent_or_deferred(
        registry,
        rules,
        emptied,
        kept,
        kept.len() as int,
    ));
}

proof fn same_kept(
    registry: ToolRegistryView,
    rules: StreamRulesView,
    s: UpstreamStreamView,
    a: Seq<EventFrameView>,
    b: Seq<EventFrameView>,
    n: int,
)
    requires
        0 <= n <= a.len(),
        a.len() <= b.len(),
        forall|i: int| 0 <= i < a.len() ==> a[i] == b[i],
    ensures
        crate::upstream::all_sent_or_deferred(registry, rules, s, a, n)
            == crate::upstream::all_sent_or_deferred(registry, rules, s, b, n),
    decreases n,
{
    if n > 0 {
        same_kept(registry, rules, s, a, b, n - 1);
        assert(a[n - 1] == b[n - 1]);
    }
}

proof fn same_parts(
    s: UpstreamStreamView,
    t: UpstreamStreamView,
    frames: Seq<EventFrameView>,
    n: int,
)
    requires
        s.defer_from == t.defer_from,
    ensures
        ready_part(s, frames, n) == ready_part(t, frames, n),
        waiting_part(s, frames, n) == waiting_part(t, frames, n),
    decreases n,
{
    if n > 0 {
        same_parts(s, t, frames, n - 1);
    }
}

/// The events that had to wait are all sent, in their order.
pub proof fn waiting_events_are_all_sent(
    registry: ToolRegistryView,
    rules: StreamRulesView,
    s: UpstreamStreamView,
    frames: Seq<EventFrameView>,
    n: int,
)
    requires
        0 <= n <= frames.len(),
    ensures
        adds_all(
            s,
            crate::upstream::all_sent(registry, rules, s, frames, n),
            frames.take(n),
            Seq::empty(),
            rules,
        ),
    decreases n,
{
    let after = crate::upstream::all_sent(registry, rules, s, frames, n);
    if n > 0 {
        waiting_events_are_all_sent(registry, rules, s, frames, n - 1);
        let before = crate::upstream::all_sent(registry, rules, s, frames, n - 1);
        let ready = frames.take(n);
        events_keep_their_contents(registry, rules, before.sequence, frames[n - 1]);
        assert forall|i: int| 0 <= i < ready.len() implies is_sent_form(
            #[trigger] after.sent[s.sent.len() + i],
            ready[i],
            counted(s.sequence, i),
            rules,
        ) by {
            if i < n - 1 {
                assert(after.sent[s.sent.len() + i] == before.sent[s.sent.len() + i]);
                assert(frames.take(n - 1)[i] == ready[i]);
            }
        }
    } else {
        assert(s.deferred + Seq::<EventFrameView>::empty() =~= s.deferred);
        assert(frames.take(0).len() == 0);
    }
}

/// Of a call that the gateway runs nothing is sent or made to wait, however its name becomes
/// known; what follows its place waits from then on.
pub proof fn gateway_calls_are_kept_from_clients(
    registry: ToolRegistryView,
    rules: StreamRulesView,
    s: UpstreamStreamView,
    frame: EventFrameView,
    item_id: Seq<char>,
)
    requires
        !may_be_search(s, frame),
        match frame.payload {
            EventPayloadView::OutputItemAdded { item_id: id, item_type, name, .. } => id == item_id
                && item_type is FunctionCall && (name matches Some(name) && gateway_runs(
                registry,
                name,
            )) && frame.event_type is OutputItemAdded,
            EventPayloadView::FunctionCallArgsDone { item_id: id, name, .. } => id == item_id
                && gateway_runs(registry, name) && frame.event_type is FunctionCallArgumentsDone
                && !s.hidden.contains(item_id),
            EventPayloadView::OutputItemDone { item_id: id, item_type, item, .. } => id == item_id
                && item_type is FunctionCall && (crate::json::text_of(
                crate::json::field(item, "name"@),
            ) matches Some(name) && gateway_runs(registry, name)) && frame.event_type
                is OutputItemDone && !s.hidden.contains(item_id),
            _ => false,
        },
    ensures
        ({
            let after = crate::upstream::upstream_step(registry, rules, s, frame);
            &&& after.sent == s.sent
            &&& after.deferred == s.deferred
            &&& after.hidden == s.hidden.insert(item_id)
            &&& frame.wire.output_index matches Some(index) ==> must_wait(after, frame)
            &&& frame.payload is OutputItemAdded || !after.pending.contains_key(item_id)
        }),
{
}

/// The end of a response is not passed on, nor is anything else sent for it.
pub proof fn response_ends_are_kept(
    registry: ToolRegistryView,
    rules: StreamRulesView,
    s: UpstreamStreamView,
    frame: EventFrameView,
)
    requires
        is_response_end(frame),
        !is_call_event(frame),
    ensures
        crate::upstream::upstream_step(registry, rules, s, frame).sent == s.sent,
        crate::upstream::upstream_step(registry, rules, s, frame).deferred == s.deferred,
{
}

/// A finished response keeps what was gathered of it, under the ids of the request.
pub proof fn finished_responses_have_the_requests_ids(
    round: StreamRoundView,
    ids: RequestIdsView,
    created_at: i64,
    model: Seq<char>,
    instructions: Option<Seq<char>>,
)
    ensures
        ({
            let response = crate::upstream::round_response(
                round,
                ids,
                created_at,
                model,
                instructions,
            );
            &&& response.id == ids.response_id
            &&& response.previous_response_id == ids.previous_response_id
            &&& response.conversation_id == ids.conversation_id
            &&& response.model == model
            &&& response.instructions == instructions
            &&& response.created_at == created_at
            &&& response.object == "response"@
        }),
{
}

/// A response that was asked for as a whole has the ids of the request too, or it is an error
/// that its body is no JSON.
pub proof fn blocking_responses_have_the_requests_ids(
    body: Result<JsonView, Seq<char>>,
    ids: RequestIdsView,
    created_at: i64,
    model: Seq<char>,
    instructions: Option<Seq<char>>,
)
    ensures
        crate::upstream::blocking_response(
            body,
            ids,
            created_at,
            model,
            instructions,
        ) matches Ok(response) ==> {
            &&& response.id == ids.response_id
            &&& response.previous_response_id == ids.previous_response_id
            &&& response.conversation_id == ids.conversation_id
            &&& response.model == model
            &&& response.instructions == instructions
            &&& response.created_at == created_at
        },
        body matches Err(reason) ==> crate::upstream::blocking_response(
            body,
            ids,
            created_at,
            model,
            instructions,
        ) == Err::<ResponsePayloadView, _>(ExecutorErrorView::ParseError(reason)),
{
}

/// What is said of a response that failed is what its event says: its identity, the code and the
/// message of its error, and the reason. A response that did not fail says nothing.
pub proof fn failures_say_what_failed(
    frame: EventFrameView,
    response: Map<Seq<char>, JsonView>,
    error: Map<Seq<char>, JsonView>,
    text: Seq<char>,
)
    requires
        frame.wire.rest.contains_key("response"@),
        frame.wire.rest["response"@] == JsonView::Object(response),
    ensures
        ({
            let failure = crate::upstream::failure_of(frame);
            &&& failure is Some <==> frame.event_type is ResponseFailed
            &&& failure is Some && crate::accumulator_laws::says(response, "id"@, text)
                ==> failure->0.upstream_response_id == text
            &&& failure is Some && response.contains_key("error"@) && response["error"@]
                == JsonView::Object(error) && crate::accumulator_laws::says(error, "code"@, text)
                ==> failure->0.error_code == text
            &&& failure is Some && response.contains_key("error"@) && response["error"@]
                == JsonView::Object(error) && crate::accumulator_laws::says(
                error,
                "message"@,
                text,
            ) ==> failure->0.error_message == text
            &&& failure is Some && crate::accumulator_laws::says(response, "error"@, text)
                ==> failure->0.error_message == text
            &&& failure is Some && response.contains_key("incomplete_details"@)
                && response["incomplete_details"@] == JsonView::Object(error)
                && crate::accumulator_laws::says(error, "reason"@, text)
                ==> failure->0.incomplete_reason == text
        }),
{
}

/// Every line with an event is both accumulated and put to the stream, and a line without one
/// changes nothing.
pub proof fn lines_are_accumulated_and_streamed(
    registry: ToolRegistryView,
    rules: StreamRulesView,
    round: StreamRoundView,
    line: Seq<char>,
    fresh: Seq<char>,
)
    ensures
        ({
            let after = crate::upstream::round_step(registry, rules, round, line, fresh);
            let frame = crate::events::line_frame(line);
            &&& frame is None ==> after == round
            &&& frame is Some ==> after.accumulator == crate::accumulator::event_step(
                crate::accumulator::details_captured(round.accumulator, frame->0),
                frame->0,
                fresh,
            )
            &&& frame is Some ==> after.stream == crate::upstream::upstream_step(
                registry,
                rules,
                round.stream,
                frame->0,
            )
        }),
{
}

/// A stream that has not begun has sent nothing, hides nothing and holds nothing back.
pub proof fn streams_begin_empty(sequence: u64)
    ensures
        ({
            let s = crate::upstream::fresh_stream(sequence);
            s.sent.len() == 0 && s.deferred.len() == 0 && s.defer_from is None && s.sequence
                == sequence && s.hidden == Set::<Seq<char>>::empty() && s.fallback == Set::<
                Seq<char>,
            >::empty() && s.pending.dom() == Set::<Seq<char>>::empty()
        }),
{
}

/// A search that clients run is declared exactly where some declaration is a search that says
/// so.
pub proof fn client_searches_are_seen(tools: Seq<ResponsesToolView>)
    ensures
        crate::upstream::client_search_declared(tools) <==> exists|i: int|
            0 <= i < tools.len() && (#[trigger] tools[i]) is ToolSearch
                && tools[i]->ToolSearch_0.execution == Some(ToolSearchExecution::Client),
{
    if crate::upstream::client_search_declared(tools) {
        let i = choose|i: int|
            0 <= i < tools.len() && crate::upstream::is_client_search(#[trigger] tools[i]);
        assert(tools[i] is ToolSearch);
    }
    if exists|i: int|
        0 <= i < tools.len() && (#[trigger] tools[i]) is ToolSearch
            && tools[i]->ToolSearch_0.execution == Some(ToolSearchExecution::Client) {
        let i = choose|i: int|
            0 <= i < tools.len() && (#[trigger] tools[i]) is ToolSearch
                && tools[i]->ToolSearch_0.execution == Some(ToolSearchExecution::Client);
        assert(crate::upstream::is_client_search(tools[i]));
    }
}

/// The arguments of a call are kept from clients exactly where the call was shown as a search,
/// and then they change nothing. Where searches are not to be given back, nothing is shown as
/// one.
pub proof fn arguments_of_shown_searches_are_hidden(
    registry: ToolRegistryView,
    rules: StreamRulesView,
    s: UpstreamStreamView,
    frame: EventFrameView,
)
    ensures
        ({
            let (after, hidden) = crate::upstream::fallback_step(registry, rules, s, frame);
            &&& !rules.restore_search ==> after == s && !hidden
            &&& frame.payload is FunctionCallArgsDelta && frame.event_type
                is FunctionCallArgumentsDelta ==> after == s && (hidden <==> rules.restore_search
                && s.fallback.contains(frame.payload->FunctionCallArgsDelta_item_id))
            &&& frame.payload is FunctionCallArgsDone && frame.event_type
                is FunctionCallArgumentsDone && rules.restore_search && s.fallback.contains(
                frame.payload->FunctionCallArgsDone_item_id,
            ) ==> after == s && hidden
            &&& frame.payload is FunctionCallArgsDone && frame.event_type
                is FunctionCallArgumentsDone && !s.fallback.contains(
                frame.payload->FunctionCallArgsDone_item_id,
            ) && frame.payload->FunctionCallArgsDone_name != "tool_search"@ ==> after == s
                && !hidden
            &&& frame.payload is TextDelta ==> after == s && !hidden
        }),
{
}

/// A call that begins is taken for a search exactly where it is a function call of the search's
/// name, of no namespace, with an identity; beginning it changes nothing else.
pub proof fn begun_searches_are_known(
    registry: ToolRegistryView,
    rules: StreamRulesView,
    s: UpstreamStreamView,
    frame: EventFrameView,
)
    requires
        rules.restore_search,
        frame.event_type is OutputItemAdded,
        frame.payload is OutputItemAdded,
    ensures
        ({
            let (after, hidden) = crate::upstream::fallback_step(registry, rules, s, frame);
            let id = frame.payload->OutputItemAdded_item_id;
            let call_id = frame.payload->OutputItemAdded_call_id;
            let is_search = frame.payload->OutputItemAdded_item_type is FunctionCall
                && frame.payload->OutputItemAdded_name == Some("tool_search"@)
                && frame.payload->OutputItemAdded_namespace is None && call_id is Some
                && call_id->0.len() > 0;
            &&& !hidden
            &&& is_search ==> after.fallback.contains(id)
            &&& !is_search ==> after == s
            &&& forall|other: Seq<char>|
                other != id ==> (#[trigger] after.fallback.contains(other)
                    <==> s.fallback.contains(other))
            &&& after == UpstreamStreamView { fallback: after.fallback, ..s }
        }),
{
}

} // verus!
