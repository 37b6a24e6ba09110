//! What a response is made of: every piece of a stream reaches the item it belongs to, and
//! every item the output.
use vstd::prelude::*;

#[allow(unused_imports)]
use crate::accumulator::AccumulatorView;
#[allow(unused_imports)]
use crate::error::ExecutorErrorView;
#[allow(unused_imports)]
use crate::events::{EventFrameView, EventPayloadView, SSEEventType, SSEItemType};
#[allow(unused_imports)]
use crate::in_flight::{InFlightEntryView, InFlightView};
#[allow(unused_imports)]
use crate::items::{
    CustomToolCallView, FunctionToolCallView, MessageStatus, OutputItem, OutputItemView,
    OutputMessageView, OutputTextContentView, ReasoningOutputView, ReasoningTextContentView,
};
#[allow(unused_imports)]
use crate::json::JsonView;
#[allow(unused_imports)]
use crate::payload::{IncompleteDetailsView, ResponsePayloadView, ResponseStatus, ResponseUsage};
#[allow(unused_imports)]
use crate::tools::{ToolSearchStatus, ToolType};
#[allow(unused_imports)]
use crate::wire::FromJson;

verus! {

/// Whether an item is the first in flight under a key.
pub open spec fn is_under(
    items: Seq<(Seq<char>, InFlightEntryView)>,
    key: Seq<char>,
    i: int,
) -> bool {
    &&& 0 <= i < items.len()
    &&& items[i].0 == key
    &&& forall|j: int| 0 <= j < i ==> (#[trigger] items[j]).0 != key
}

/// Whether nothing is in flight under a key.
pub open spec fn is_free(items: Seq<(Seq<char>, InFlightEntryView)>, key: Seq<char>) -> bool {
    forall|j: int| 0 <= j < items.len() ==> (#[trigger] items[j]).0 != key
}

/// Whether two states differ at most in one item in flight, which is tracked as before.
pub open spec fn only_item_changed(a: AccumulatorView, b: AccumulatorView, i: int) -> bool {
    &&& b == AccumulatorView { in_flight: b.in_flight, ..a }
    &&& b.in_flight.len() == a.in_flight.len()
    &&& b.in_flight[i].0 == a.in_flight[i].0
    &&& b.in_flight[i].1.output_index == a.in_flight[i].1.output_index
    &&& forall|j: int|
        0 <= j < a.in_flight.len() && j != i ==> #[trigger] b.in_flight[j] == a.in_flight[j]
}

proof fn under_is_found(items: Seq<(Seq<char>, InFlightEntryView)>, key: Seq<char>, i: int, n: int)
    requires
        is_under(items, key, i),
        0 <= n <= i,
    ensures
        crate::in_flight::key_place(items, key, n) == Some(i),
    decreases i - n,
{
    if n < i {
        assert(items[n].0 != key);
        under_is_found(items, key, i, n + 1);
    }
}

proof fn free_is_not_found(items: Seq<(Seq<char>, InFlightEntryView)>, key: Seq<char>, n: int)
    requires
        is_free(items, key),
        0 <= n,
    ensures
        crate::in_flight::key_place(items, key, n) is None,
    decreases items.len() - n,
{
    if n < items.len() {
        assert(items[n].0 != key);
        free_is_not_found(items, key, n + 1);
    }
}

/// A piece of text goes to the end of what its message has said, and changes nothing else.
pub proof fn texts_are_gathered(a: AccumulatorView, frame: EventFrameView, fresh: Seq<char>, i: int)
    requires
        frame.event_type is OutputTextDelta,
        frame.payload is TextDelta,
        is_under(a.in_flight, frame.payload->TextDelta_item_id, i),
        a.in_flight[i].1.item is Message,
    ensures
        ({
            let b = crate::accumulator::event_step(a, frame, fresh);
            let was = a.in_flight[i].1.item;
            let is = b.in_flight[i].1.item;
            &&& only_item_changed(a, b, i)
            &&& is is Message
            &&& is->Message_item == was->Message_item
            &&& is->Message_text == was->Message_text + frame.payload->TextDelta_delta
        }),
{
    under_is_found(a.in_flight, frame.payload->TextDelta_item_id, i, 0);
}

/// A piece of reasoning goes to the end of what its item has reasoned, and changes nothing
/// else; told whole, the reasoning becomes one more part of the item.
pub proof fn reasoning_is_gathered(
    a: AccumulatorView,
    frame: EventFrameView,
    fresh: Seq<char>,
    i: int,
)
    requires
        frame.event_type is ReasoningTextDelta && frame.payload is ReasoningDelta && is_under(
            a.in_flight,
            frame.payload->ReasoningDelta_item_id,
            i,
        ) || frame.event_type is ReasoningTextDone && frame.payload is ReasoningDone && is_under(
            a.in_flight,
            frame.payload->ReasoningDone_item_id,
            i,
        ),
        a.in_flight[i].1.item is Reasoning,
    ensures
        ({
            let b = crate::accumulator::event_step(a, frame, fresh);
            let was = a.in_flight[i].1.item;
            let is = b.in_flight[i].1.item;
            &&& only_item_changed(a, b, i)
            &&& is is Reasoning
            &&& is->Reasoning_item == (ReasoningOutputView {
                content: is->Reasoning_item.content,
                ..was->Reasoning_item
            })
            &&& frame.payload is ReasoningDelta ==> is->Reasoning_item == was->Reasoning_item
                && is->Reasoning_text == was->Reasoning_text
                + frame.payload->ReasoningDelta_delta
            &&& frame.payload is ReasoningDone ==> is->Reasoning_text.len() == 0
            &&& frame.payload is ReasoningDone && frame.payload->ReasoningDone_text.len() > 0
                ==> is->Reasoning_item.content == was->Reasoning_item.content.push(
                ReasoningTextContentView { text: frame.payload->ReasoningDone_text },
            )
            &&& frame.payload is ReasoningDone && frame.payload->ReasoningDone_text.len() == 0
                && was->Reasoning_text.len() > 0 ==> is->Reasoning_item.content
                == was->Reasoning_item.content.push(
                ReasoningTextContentView { text: was->Reasoning_text },
            )
        }),
{
    under_is_found(a.in_flight, a.in_flight[i].0, i, 0);
}

/// Whether an event about arguments is about the function call at a place in flight: by its
/// identity, or by its place in the output where nothing is in flight under its identity.
pub open spec fn is_about(
    items: Seq<(Seq<char>, InFlightEntryView)>,
    key: Seq<char>,
    output_index: u32,
    i: int,
) -> bool {
    &&& 0 <= i < items.len()
    &&& items[i].1.item is FunctionCall
    &&& items[i].1.output_index == output_index
    &&& is_under(items, key, i) || (is_free(items, key) && forall|j: int|
        0 <= j < i && (#[trigger] items[j]).1.item is FunctionCall ==> items[j].1.output_index
            != output_index)
}

proof fn call_is_found(
    items: Seq<(Seq<char>, InFlightEntryView)>,
    key: Seq<char>,
    output_index: u32,
    i: int,
)
    requires
        is_about(items, key, output_index, i),
    ensures
        crate::accumulator::call_for(items, key, SSEItemType::FunctionCall, output_index) == Some(
            i,
        ),
{
    if is_under(items, key, i) {
        under_is_found(items, key, i, 0);
    } else {
        free_is_not_found(items, key, 0);
        call_is_first(items, output_index, i, 0);
    }
}

proof fn call_is_first(
    items: Seq<(Seq<char>, InFlightEntryView)>,
    output_index: u32,
    i: int,
    n: int,
)
    requires
        0 <= n <= i < items.len(),
        items[i].1.item is FunctionCall,
        items[i].1.output_index == output_index,
        forall|j: int|
            0 <= j < i && (#[trigger] items[j]).1.item is FunctionCall ==> items[j].1.output_index
                != output_index,
    ensures
        crate::accumulator::call_at_place(items, SSEItemType::FunctionCall, output_index, n)
            == Some(i),
    decreases i - n,
{
    if n < i {
        let item = items[n];
        call_is_first(items, output_index, i, n + 1);
    }
}

/// A piece of arguments goes to the end of those of its call, and changes nothing else.
pub proof fn arguments_are_gathered(
    a: AccumulatorView,
    frame: EventFrameView,
    fresh: Seq<char>,
    i: int,
)
    requires
        frame.event_type is FunctionCallArgumentsDelta,
        frame.payload is FunctionCallArgsDelta,
        is_about(
            a.in_flight,
            frame.payload->FunctionCallArgsDelta_item_id,
            frame.payload->FunctionCallArgsDelta_output_index,
            i,
        ),
    ensures
        ({
            let b = crate::accumulator::event_step(a, frame, fresh);
            let was = a.in_flight[i].1.item;
            let is = b.in_flight[i].1.item;
            &&& only_item_changed(a, b, i)
            &&& is is FunctionCall
            &&& is->FunctionCall_item == was->FunctionCall_item
            &&& is->FunctionCall_arguments == was->FunctionCall_arguments
                + frame.payload->FunctionCallArgsDelta_delta
        }),
{
    call_is_found(
        a.in_flight,
        frame.payload->FunctionCallArgsDelta_item_id,
        frame.payload->FunctionCallArgsDelta_output_index,
        i,
    );
}

/// Where the arguments of a call are told whole they are its arguments; told empty, what was
/// there or was gathered stays. A name or a call id that is told replaces the one that was
/// there, and the call keeps its identity.
pub proof fn arguments_are_closed(
    a: AccumulatorView,
    frame: EventFrameView,
    fresh: Seq<char>,
    i: int,
)
    requires
        frame.event_type is FunctionCallArgumentsDone,
        frame.payload is FunctionCallArgsDone,
        is_about(
            a.in_flight,
            frame.payload->FunctionCallArgsDone_item_id,
            frame.payload->FunctionCallArgsDone_output_index,
            i,
        ),
    ensures
        ({
            let b = crate::accumulator::event_step(a, frame, fresh);
            let was = a.in_flight[i].1.item->FunctionCall_item;
            let is = b.in_flight[i].1.item->FunctionCall_item;
            let gathered = a.in_flight[i].1.item->FunctionCall_arguments;
            let told = frame.payload->FunctionCallArgsDone_arguments;
            let name = frame.payload->FunctionCallArgsDone_name;
            let call_id = frame.payload->FunctionCallArgsDone_call_id;
            &&& only_item_changed(a, b, i)
            &&& b.in_flight[i].1.item is FunctionCall
            &&& b.in_flight[i].1.item->FunctionCall_arguments == gathered
            &&& is.id == was.id && is.namespace == was.namespace && is.status == was.status
            &&& told.len() > 0 ==> is.arguments == told
            &&& told.len() == 0 && was.arguments.len() > 0 ==> is.arguments == was.arguments
            &&& told.len() == 0 && was.arguments.len() == 0 ==> is.arguments == gathered
            &&& name.len() > 0 ==> is.name == name
            &&& name.len() == 0 ==> is.name == was.name
            &&& call_id is Some && call_id->0.len() > 0 ==> is.call_id == call_id->0
            &&& call_id is None || call_id->0.len() == 0 ==> is.call_id == was.call_id
        }),
{
    call_is_found(
        a.in_flight,
        frame.payload->FunctionCallArgsDone_item_id,
        frame.payload->FunctionCallArgsDone_output_index,
        i,
    );
}

/// A piece of input goes to the end of that of its custom call, and changes nothing else; told
/// whole, the input is what was told, or what was gathered where nothing is told.
pub proof fn inputs_are_gathered(
    a: AccumulatorView,
    frame: EventFrameView,
    fresh: Seq<char>,
    i: int,
)
    requires
        frame.event_type is CustomToolCallInputDelta && frame.payload is CustomToolCallInputDelta
            && is_under(a.in_flight, frame.payload->CustomToolCallInputDelta_item_id, i)
            || frame.event_type is CustomToolCallInputDone && frame.payload
            is CustomToolCallInputDone && is_under(
            a.in_flight,
            frame.payload->CustomToolCallInputDone_item_id,
            i,
        ),
        a.in_flight[i].1.item is CustomToolCall,
    ensures
        ({
            let b = crate::accumulator::event_step(a, frame, fresh);
            let was = a.in_flight[i].1.item;
            let is = b.in_flight[i].1.item;
            &&& only_item_changed(a, b, i)
            &&& is is CustomToolCall
            &&& is->CustomToolCall_item == (CustomToolCallView {
                input: is->CustomToolCall_item.input,
                ..was->CustomToolCall_item
            })
            &&& frame.payload is CustomToolCallInputDelta ==> is->CustomToolCall_item
                == was->CustomToolCall_item && is->CustomToolCall_input
                == was->CustomToolCall_input + frame.payload->CustomToolCallInputDelta_delta
            &&& frame.payload is CustomToolCallInputDone
                && frame.payload->CustomToolCallInputDone_input.len() > 0
                ==> is->CustomToolCall_item.input == frame.payload->CustomToolCallInputDone_input
            &&& frame.payload is CustomToolCallInputDone
                && frame.payload->CustomToolCallInputDone_input.len() == 0
                && was->CustomToolCall_item.input.len() == 0 ==> is->CustomToolCall_item.input
                == was->CustomToolCall_input
        }),
{
    under_is_found(a.in_flight, a.in_flight[i].0, i, 0);
}

/// The kind of the item in flight that an added item begins as.
pub open spec fn is_of_type(item: InFlightView, item_type: SSEItemType) -> bool {
    match item_type {
        SSEItemType::Message => item is Message,
        SSEItemType::Reasoning => item is Reasoning,
        SSEItemType::FunctionCall => item is FunctionCall,
        SSEItemType::CustomToolCall => item is CustomToolCall,
        SSEItemType::WebSearchCall => item is WebSearchCall,
        SSEItemType::McpCall => item is McpCall,
        SSEItemType::McpListTools => item is McpListTools,
        SSEItemType::ToolSearchCall => item is ToolSearchCall,
        SSEItemType::Compaction => item is Compaction,
    }
}

/// The identity of an item in flight.
pub open spec fn id_in_flight(item: InFlightView) -> Option<Seq<char>> {
    match item {
        InFlightView::Message { item, .. } => Some(item.id),
        InFlightView::Reasoning { item, .. } => Some(item.id),
        InFlightView::FunctionCall { item, .. } => Some(item.id),
        InFlightView::CustomToolCall { item, .. } => Some(item.id),
        InFlightView::WebSearchCall { item } => None,
        InFlightView::McpCall { item } => Some(item.id),
        InFlightView::McpListTools { item } => Some(item.id),
        InFlightView::ToolSearchCall(item) => Some(item.id),
        InFlightView::Compaction { item } => item.id,
    }
}

/// Whether an item in flight has gathered nothing yet.
pub open spec fn is_blank_item(item: InFlightView) -> bool {
    match item {
        InFlightView::Message { item, text } => item.content.len() == 0 && text.len() == 0
            && item.role == "assistant"@ && item.status is InProgress,
        InFlightView::Reasoning { item, text } => item.content.len() == 0 && item.summary.len()
            == 0 && text.len() == 0 && item.encrypted_content is None,
        InFlightView::FunctionCall { item, arguments } => item.arguments.len() == 0
            && arguments.len() == 0 && item.status is InProgress,
        InFlightView::CustomToolCall { item, input } => item.input.len() == 0 && input.len() == 0
            && item.status == Some(MessageStatus::InProgress),
        InFlightView::WebSearchCall { item } => item is None,
        InFlightView::McpCall { item } => item.output is None && item.error is None
            && item.arguments.len() == 0,
        InFlightView::McpListTools { item } => item.tools.len() == 0 && item.error is None,
        InFlightView::ToolSearchCall(item) => item.status is InProgress,
        InFlightView::Compaction { item } => item.encrypted_content.len() == 0,
    }
}

/// An item that is added under an identity that is not in flight is tracked behind the others,
/// at its place, as an item of its kind with its identity and nothing gathered. A call keeps
/// the call id, the name and the namespace that the event gives.
pub proof fn added_items_are_tracked(a: AccumulatorView, frame: EventFrameView, fresh: Seq<char>)
    requires
        frame.event_type is OutputItemAdded,
        frame.payload is OutputItemAdded,
        frame.payload->OutputItemAdded_item_id.len() > 0,
        is_free(a.in_flight, frame.payload->OutputItemAdded_item_id),
        !(frame.payload->OutputItemAdded_item_type is ToolSearchCall),
    ensures
        ({
            let b = crate::accumulator::event_step(a, frame, fresh);
            let id = frame.payload->OutputItemAdded_item_id;
            let entry = b.in_flight.last();
            &&& b == AccumulatorView { in_flight: a.in_flight.push(entry), ..a }
            &&& entry.0 == id
            &&& entry.1.output_index == frame.payload->OutputItemAdded_output_index
            &&& is_of_type(entry.1.item, frame.payload->OutputItemAdded_item_type)
            &&& is_blank_item(entry.1.item)
            &&& !(entry.1.item is WebSearchCall) ==> id_in_flight(entry.1.item) == Some(id)
            &&& entry.1.item is FunctionCall ==> entry.1.item->FunctionCall_item.namespace
                == frame.payload->OutputItemAdded_namespace
            &&& entry.1.item is FunctionCall && frame.payload->OutputItemAdded_call_id is Some
                ==> entry.1.item->FunctionCall_item.call_id
                == frame.payload->OutputItemAdded_call_id->0
            &&& entry.1.item is FunctionCall && frame.payload->OutputItemAdded_name is Some
                ==> entry.1.item->FunctionCall_item.name == frame.payload->OutputItemAdded_name->0
            &&& entry.1.item is CustomToolCall && frame.payload->OutputItemAdded_call_id is Some
                ==> entry.1.item->CustomToolCall_item.call_id
                == frame.payload->OutputItemAdded_call_id->0
            &&& entry.1.item is CustomToolCall && frame.payload->OutputItemAdded_name is Some
                ==> entry.1.item->CustomToolCall_item.name
                == frame.payload->OutputItemAdded_name->0
            &&& entry.1.item is McpCall && frame.payload->OutputItemAdded_name is Some
                ==> entry.1.item->McpCall_item.name == frame.payload->OutputItemAdded_name->0
        }),
{
    free_is_not_found(a.in_flight, frame.payload->OutputItemAdded_item_id, 0);
}

/// A native search is tracked only where it names itself and its call and the client runs it;
/// any other is an error, and nothing is tracked for it.
pub proof fn added_searches_are_the_clients(
    a: AccumulatorView,
    frame: EventFrameView,
    fresh: Seq<char>,
)
    requires
        frame.event_type is OutputItemAdded,
        frame.payload is OutputItemAdded,
        frame.payload->OutputItemAdded_item_type is ToolSearchCall,
        is_free(a.in_flight, frame.payload->OutputItemAdded_item_id),
    ensures
        ({
            let b = crate::accumulator::event_step(a, frame, fresh);
            let id = frame.payload->OutputItemAdded_item_id;
            let call_id = frame.payload->OutputItemAdded_call_id;
            let execution = frame.payload->OutputItemAdded_execution;
            let arguments = frame.payload->OutputItemAdded_arguments;
            let named = call_id is Some && !crate::text::blank(id) && !crate::text::blank(
                call_id->0,
            ) && execution == Some("client"@);
            &&& named && arguments is Some && arguments->0 is Object ==> {
                &&& b.in_flight.len() == a.in_flight.len() + 1
                &&& b.in_flight.last().0 == id
                &&& b.in_flight.last().1.item is ToolSearchCall
                &&& b.in_flight.last().1.item->ToolSearchCall_0.id == id
                &&& b.in_flight.last().1.item->ToolSearchCall_0.call_id == call_id->0
                &&& b.in_flight.last().1.item->ToolSearchCall_0.arguments
                    == arguments->0->Object_0
                &&& b.processing_error == a.processing_error
            }
            &&& execution != Some("client"@) || crate::text::blank(id) ==> b.in_flight
                == a.in_flight && b.processing_error is Some
        }),
{
    free_is_not_found(a.in_flight, frame.payload->OutputItemAdded_item_id, 0);
}

/// Whether a field of an item says a text.
pub open spec fn says(fields: Map<Seq<char>, JsonView>, key: Seq<char>, text: Seq<char>) -> bool {
    fields.contains_key(key) && fields[key] == JsonView::Text(text)
}

/// Whether a text is what a field says, or what it was where the field says none.
pub open spec fn is_told(
    fields: Map<Seq<char>, JsonView>,
    key: Seq<char>,
    was: Seq<char>,
    is: Seq<char>,
) -> bool {
    &&& forall|text: Seq<char>|
        #![trigger says(fields, key, text)]
        says(fields, key, text) && text.len() > 0 ==> is == text
    &&& !fields.contains_key(key) || says(fields, key, Seq::empty()) ==> is == was
}

/// A function call whose item is done is completed in place. It has the identity, the call id,
/// the name and the arguments that the done item tells, and keeps those that it does not tell.
pub proof fn done_calls_are_completed(
    a: AccumulatorView,
    frame: EventFrameView,
    fresh: Seq<char>,
    i: int,
)
    requires
        frame.event_type is OutputItemDone,
        frame.payload is OutputItemDone,
        frame.payload->OutputItemDone_item_type is FunctionCall,
        frame.payload->OutputItemDone_item is Object,
        is_about(
            a.in_flight,
            frame.payload->OutputItemDone_item_id,
            frame.payload->OutputItemDone_output_index,
            i,
        ),
        forall|name: Seq<char>| #[trigger]
            a.tool_types.contains_key(name) ==> !(a.tool_types[name] is ToolSearch),
    ensures
        ({
            let b = crate::accumulator::event_step(a, frame, fresh);
            let was = a.in_flight[i].1.item->FunctionCall_item;
            let is = b.in_flight[i].1.item->FunctionCall_item;
            let fields = frame.payload->OutputItemDone_item->Object_0;
            let gathered = a.in_flight[i].1.item->FunctionCall_arguments;
            &&& only_item_changed(a, b, i)
            &&& b.in_flight[i].1.item is FunctionCall
            &&& is.status is Completed
            &&& is_told(fields, "id"@, was.id, is.id)
            &&& is_told(fields, "call_id"@, was.call_id, is.call_id)
            &&& is_told(fields, "name"@, was.name, is.name)
            &&& was.arguments.len() > 0 ==> is_told(
                fields,
                "arguments"@,
                was.arguments,
                is.arguments,
            )
            &&& was.arguments.len() == 0 ==> is_told(
                fields,
                "arguments"@,
                gathered,
                is.arguments,
            )
        }),
{
    call_is_found(
        a.in_flight,
        frame.payload->OutputItemDone_item_id,
        frame.payload->OutputItemDone_output_index,
        i,
    );
}

/// A custom call whose item is done is completed in place, with what the done item tells.
pub proof fn done_custom_calls_are_completed(
    a: AccumulatorView,
    frame: EventFrameView,
    fresh: Seq<char>,
    i: int,
)
    requires
        frame.event_type is OutputItemDone,
        frame.payload is OutputItemDone,
        frame.payload->OutputItemDone_item_type is CustomToolCall,
        frame.payload->OutputItemDone_item is Object,
        is_under(a.in_flight, frame.payload->OutputItemDone_item_id, i),
        a.in_flight[i].1.item is CustomToolCall,
        a.in_flight[i].1.output_index == frame.payload->OutputItemDone_output_index,
    ensures
        ({
            let b = crate::accumulator::event_step(a, frame, fresh);
            let was = a.in_flight[i].1.item->CustomToolCall_item;
            let is = b.in_flight[i].1.item->CustomToolCall_item;
            let fields = frame.payload->OutputItemDone_item->Object_0;
            &&& only_item_changed(a, b, i)
            &&& b.in_flight[i].1.item is CustomToolCall
            &&& is.status == Some(MessageStatus::Completed)
            &&& is_told(fields, "id"@, was.id, is.id)
            &&& is_told(fields, "call_id"@, was.call_id, is.call_id)
            &&& is_told(fields, "name"@, was.name, is.name)
            &&& was.input.len() > 0 ==> is_told(fields, "input"@, was.input, is.input)
            &&& was.input.len() == 0 ==> is_told(
                fields,
                "input"@,
                a.in_flight[i].1.item->CustomToolCall_input,
                is.input,
            )
        }),
{
    under_is_found(a.in_flight, frame.payload->OutputItemDone_item_id, i, 0);
}

/// A call that is done without having been in flight is finished as it is, at its place; a
/// message or a piece of reasoning is not taken.
pub proof fn untracked_calls_are_taken(
    a: AccumulatorView,
    frame: EventFrameView,
    fresh: Seq<char>,
    item: OutputItemView,
)
    requires
        frame.event_type is OutputItemDone,
        frame.payload is OutputItemDone,
        a.in_flight.len() == 0,
        <OutputItem as FromJson>::of_json(frame.payload->OutputItemDone_item) == Some(item),
        forall|name: Seq<char>| #[trigger]
            a.tool_types.contains_key(name) ==> !(a.tool_types[name] is ToolSearch),
    ensures
        ({
            let b = crate::accumulator::event_step(a, frame, fresh);
            &&& item is FunctionCall || item is CustomToolCall || item is McpCall || item
                is McpListTools || item is Compaction || (item is ToolSearchCall
                && item->ToolSearchCall_0.status is Completed) || (item is WebSearchCall
                && item->WebSearchCall_0.id.len() > 0) ==> b == (AccumulatorView {
                completed: a.completed.push((frame.payload->OutputItemDone_output_index, item)),
                ..a
            })
            &&& item is Message || item is Reasoning ==> b == a
            &&& item is ToolSearchCall && !(item->ToolSearchCall_0.status is Completed)
                ==> b.completed == a.completed && b.processing_error is Some
        }),
{
    free_is_not_found(a.in_flight, frame.payload->OutputItemDone_item_id, 0);
}

/// A created response has the identity that the event gives; an event without one changes
/// nothing.
pub proof fn created_responses_are_named(
    a: AccumulatorView,
    frame: EventFrameView,
    fresh: Seq<char>,
)
    requires
        frame.event_type is ResponseCreated,
        frame.payload is Response,
    ensures
        ({
            let b = crate::accumulator::event_step(a, frame, fresh);
            &&& b == AccumulatorView { response_id: b.response_id, ..a }
            &&& frame.payload->Response_id.len() > 0 ==> b.response_id
                == frame.payload->Response_id
            &&& frame.payload->Response_id.len() == 0 ==> b.response_id == a.response_id
        }),
{
}

/// Events that say nothing of an item's contents or of the response's end change nothing.
pub proof fn other_events_change_nothing(
    a: AccumulatorView,
    frame: EventFrameView,
    fresh: Seq<char>,
)
    requires
        frame.event_type is Other || frame.event_type is ResponseInProgress || frame.event_type
            is ContentPartAdded || frame.event_type is ContentPartDone || frame.event_type
            is OutputTextDone,
    ensures
        crate::accumulator::event_step(a, frame, fresh) == a,
        crate::accumulator::details_captured(a, frame) == a,
{
}

/// What a message, a piece of reasoning or a call that the client answers comes out as: what
/// was gathered is in the item, under the item's own identity.
pub open spec fn comes_out_as(item: InFlightView, out: OutputItemView) -> bool {
    match item {
        InFlightView::Message { item, text } => {
            &&& out is Message
            &&& out->Message_0.id == item.id
            &&& out->Message_0.role == item.role
            &&& out->Message_0.status is Completed
            &&& text.len() == 0 ==> out->Message_0.content == item.content
            &&& text.len() > 0 ==> out->Message_0.content == item.content.push(
                OutputTextContentView { text, annotations: Seq::empty() },
            )
        },
        InFlightView::Reasoning { item, text } => {
            &&& out is Reasoning
            &&& out->Reasoning_0.id == item.id
            &&& out->Reasoning_0.summary == item.summary
            &&& out->Reasoning_0.encrypted_content == item.encrypted_content
            &&& text.len() == 0 ==> out->Reasoning_0.content == item.content
            &&& text.len() > 0 ==> out->Reasoning_0.content == item.content.push(
                ReasoningTextContentView { text },
            )
        },
        InFlightView::FunctionCall { item, arguments } => {
            &&& out is FunctionCall
            &&& out->FunctionCall_0.id == item.id
            &&& out->FunctionCall_0.call_id == item.call_id
            &&& out->FunctionCall_0.name == item.name
            &&& out->FunctionCall_0.namespace == item.namespace
            &&& out->FunctionCall_0.status is Completed
            &&& item.arguments.len() > 0 ==> out->FunctionCall_0.arguments == item.arguments
            &&& item.arguments.len() == 0 ==> out->FunctionCall_0.arguments == arguments
        },
        InFlightView::CustomToolCall { item, input } => {
            &&& out is CustomToolCall
            &&& out->CustomToolCall_0.id == item.id
            &&& out->CustomToolCall_0.call_id == item.call_id
            &&& out->CustomToolCall_0.name == item.name
            &&& out->CustomToolCall_0.status == Some(MessageStatus::Completed)
            &&& item.input.len() > 0 ==> out->CustomToolCall_0.input == item.input
            &&& item.input.len() == 0 ==> out->CustomToolCall_0.input == input
        },
        InFlightView::WebSearchCall { item } => item is Some && out
            == OutputItemView::WebSearchCall(item->0),
        InFlightView::McpCall { item } => out == OutputItemView::McpCall(item),
        InFlightView::McpListTools { item } => out == OutputItemView::McpListTools(item),
        InFlightView::ToolSearchCall(item) => out == OutputItemView::ToolSearchCall(item),
        InFlightView::Compaction { item } => out == OutputItemView::Compaction(item),
    }
}

/// Whether an item in flight has come far enough to be part of the output: a web search has
/// its item, a native search is finished, and a function call is not that of a search.
pub open spec fn has_come(item: InFlightView, tool_types: Map<Seq<char>, ToolType>) -> bool {
    match item {
        InFlightView::WebSearchCall { item } => item is Some,
        InFlightView::ToolSearchCall(item) => item.status is Completed,
        InFlightView::FunctionCall { item, .. } => !(tool_types.contains_key(item.name)
            && tool_types[item.name] is ToolSearch),
        _ => true,
    }
}

/// Whether an item in flight is at a place among placed items.
pub open spec fn is_among(
    placed: Seq<(u32, OutputItemView)>,
    entry: InFlightEntryView,
    k: int,
) -> bool {
    &&& 0 <= k < placed.len()
    &&& placed[k].0 == entry.output_index
    &&& comes_out_as(entry.item, placed[k].1)
}

/// Whether an item in flight is somewhere among placed items.
pub open spec fn is_somewhere(
    placed: Seq<(u32, OutputItemView)>,
    entry: InFlightEntryView,
) -> bool {
    exists|k: int| #[trigger] is_among(placed, entry, k)
}

/// Whether the output of a state is followed, in another, by items in the order of their
/// places.
pub open spec fn is_followed_by(
    a: AccumulatorView,
    b: AccumulatorView,
    placed: Seq<(u32, OutputItemView)>,
) -> bool {
    &&& b.output.len() == a.output.len() + placed.len()
    &&& forall|k: int| 0 <= k < a.output.len() ==> #[trigger] b.output[k] == a.output[k]
    &&& forall|k: int|
        0 <= k < placed.len() ==> (#[trigger] placed[k]).1 == b.output[a.output.len() + k]
    &&& forall|j: int, k: int|
        0 <= j < k < placed.len() ==> (#[trigger] placed[j]).0 <= (#[trigger] placed[k]).0
}

proof fn come_items_end(
    item: InFlightView,
    tool_types: Map<Seq<char>, ToolType>,
    discard: bool,
) -> (out: OutputItemView)
    requires
        has_come(item, tool_types),
    ensures
        crate::accumulator::ended(item, tool_types, discard) == Ok::<
            Option<OutputItemView>,
            ExecutorErrorView,
        >(Some(out)),
        comes_out_as(item, out),
{
    let out = crate::accumulator::ended(item, tool_types, discard)->Ok_0->0;
    if let InFlightView::FunctionCall { item: call, arguments } = item {
        if call.arguments.len() == 0 && arguments.len() == 0 {
            assert(call.arguments =~= arguments);
        }
    }
    out
}

proof fn ended_items_keep_the_rest(entries: Seq<InFlightEntryView>, a: AccumulatorView, n: int)
    requires
        0 <= n <= entries.len(),
    ensures
        ({
            let b = crate::accumulator::end_items(entries, a, n);
            &&& b == AccumulatorView {
                completed: b.completed,
                processing_error: b.processing_error,
                ..a
            }
            &&& a.processing_error is Some ==> b.processing_error == a.processing_error
        }),
    decreases n,
{
    if n > 0 {
        ended_items_keep_the_rest(entries, a, n - 1);
    }
}

proof fn ended_items_follow_the_finished(
    entries: Seq<InFlightEntryView>,
    a: AccumulatorView,
    n: int,
)
    requires
        0 <= n <= entries.len(),
    ensures
        ({
            let b = crate::accumulator::end_items(entries, a, n);
            &&& a.completed.len() <= b.completed.len() <= a.completed.len() + n
            &&& forall|k: int|
                0 <= k < a.completed.len() ==> #[trigger] a.completed[k] == b.completed[k]
        }),
    decreases n,
{
    if n > 0 {
        ended_items_follow_the_finished(entries, a, n - 1);
        let b1 = crate::accumulator::end_items(entries, a, n - 1);
        let b = crate::accumulator::end_items(entries, a, n);
        assert forall|k: int| 0 <= k < a.completed.len() implies #[trigger] a.completed[k]
            == b.completed[k] by {
            assert(a.completed[k] == b1.completed[k]);
        }
    }
}

proof fn come_items_are_all_there(
    entries: Seq<InFlightEntryView>,
    a: AccumulatorView,
    n: int,
    i: int,
)
    requires
        0 <= i < n <= entries.len(),
        has_come(entries[i].item, a.tool_types),
    ensures
        is_somewhere(crate::accumulator::end_items(entries, a, n).completed, entries[i]),
    decreases n,
{
    let b1 = crate::accumulator::end_items(entries, a, n - 1);
    let b = crate::accumulator::end_items(entries, a, n);
    if i < n - 1 {
        come_items_are_all_there(entries, a, n - 1, i);
        let k = choose|k: int| #[trigger] is_among(b1.completed, entries[i], k);
        assert(b.completed[k] == b1.completed[k]);
        assert(is_among(b.completed, entries[i], k));
    } else {
        let out = come_items_end(
            entries[i].item,
            a.tool_types,
            crate::accumulator::discards(a.status),
        );
        assert(b.completed == b1.completed.push((entries[i].output_index, out)));
        assert(is_among(b.completed, entries[i], b.completed.len() - 1));
    }
}

proof fn come_items_are_counted(entries: Seq<InFlightEntryView>, a: AccumulatorView, n: int)
    requires
        0 <= n <= entries.len(),
        forall|i: int| 0 <= i < n ==> has_come((#[trigger] entries[i]).item, a.tool_types),
    ensures
        crate::accumulator::end_items(entries, a, n).completed.len() == a.completed.len() + n,
        crate::accumulator::end_items(entries, a, n).processing_error == a.processing_error,
    decreases n,
{
    if n > 0 {
        come_items_are_counted(entries, a, n - 1);
        let out = come_items_end(
            entries[n - 1].item,
            a.tool_types,
            crate::accumulator::discards(a.status),
        );
    }
}

/// At the end of a response everything that was finished or in flight is in the output, behind
/// what was there, each item once, in the order of their places and with what was gathered.
/// Nothing stays in flight.
pub proof fn items_reach_the_output(a: AccumulatorView)
    ensures
        ({
            let b = crate::accumulator::all_ended(a);
            &&& b.in_flight.len() == 0
            &&& b.completed.len() == 0
            &&& b.status == a.status && b.usage == a.usage && b.response_id == a.response_id
            &&& b.conversation_id == a.conversation_id && b.error == a.error
                && b.incomplete_details == a.incomplete_details && b.tool_types == a.tool_types
            &&& exists|placed: Seq<(u32, OutputItemView)>|
                {
                    &&& #[trigger] is_followed_by(a, b, placed)
                    &&& forall|k: int|
                        0 <= k < a.completed.len() ==> placed.contains(#[trigger] a.completed[k])
                    &&& forall|i: int|
                        0 <= i < a.in_flight.len() && has_come(
                            (#[trigger] a.in_flight[i]).1.item,
                            a.tool_types,
                        ) ==> is_somewhere(placed, a.in_flight[i].1)
                }
            &&& b.output.len() <= a.output.len() + a.completed.len() + a.in_flight.len()
            &&& (forall|i: int|
                0 <= i < a.in_flight.len() ==> has_come(
                    (#[trigger] a.in_flight[i]).1.item,
                    a.tool_types,
                )) ==> b.output.len() == a.output.len() + a.completed.len() + a.in_flight.len()
                && b.processing_error == a.processing_error
        }),
{
    broadcast use vstd::seq_lib::group_to_multiset_ensures;

    let b = crate::accumulator::all_ended(a);
    let entries = crate::accumulator::entries_of(a.in_flight);
    let a0 = AccumulatorView { in_flight: Seq::empty(), ..a };
    let a1 = crate::accumulator::end_items(entries, a0, entries.len() as int);
    let n = entries.len() as int;
    ended_items_keep_the_rest(entries, a0, n);
    ended_items_follow_the_finished(entries, a0, n);
    crate::accumulator::by_place_sorts(a1.completed);
    let placed = crate::accumulator::by_place(a1.completed);
    assert(placed.len() == placed.to_multiset().len());
    assert(placed.len() == a1.completed.len());
    assert forall|i: int| 0 <= i < a.in_flight.len() implies #[trigger] entries[i]
        == a.in_flight[i].1 by {}
    assert(is_followed_by(a, b, placed));
    assert forall|x: (u32, OutputItemView)| a1.completed.contains(x) implies placed.contains(x) by {
        assert(a1.completed.to_multiset().count(x) > 0);
        assert(placed.to_multiset().count(x) > 0);
    }
    assert forall|k: int| 0 <= k < a.completed.len() implies placed.contains(
        #[trigger] a.completed[k],
    ) by {
        assert(a1.completed[k] == a.completed[k]);
        assert(a1.completed.contains(a.completed[k]));
    }
    assert forall|i: int|
        0 <= i < a.in_flight.len() && has_come(
            (#[trigger] a.in_flight[i]).1.item,
            a.tool_types,
        ) implies is_somewhere(placed, a.in_flight[i].1) by {
        assert(has_come(entries[i].item, a.tool_types));
        come_items_are_all_there(entries, a0, n, i);
        let k = choose|k: int| #[trigger] is_among(a1.completed, entries[i], k);
        assert(a1.completed.contains(a1.completed[k]));
        assert(placed.contains(a1.completed[k]));
        let m = choose|m: int| 0 <= m < placed.len() && placed[m] == a1.completed[k];
        assert(is_among(placed, a.in_flight[i].1, m));
    }
    if forall|i: int|
        0 <= i < a.in_flight.len() ==> has_come((#[trigger] a.in_flight[i]).1.item, a.tool_types) {
        assert forall|i: int| 0 <= i < entries.len() implies has_come(
            (#[trigger] entries[i]).item,
            a0.tool_types,
        ) by {
            let e = a.in_flight[i];
        }
        come_items_are_counted(entries, a0, n);
    }
}

/// An event that ends a response gives it the status that it stands for and the usage that it
/// carries, and brings everything in flight to the output.
pub proof fn responses_end_as_told(a: AccumulatorView, frame: EventFrameView, fresh: Seq<char>)
    requires
        frame.event_type is ResponseCompleted || frame.event_type is ResponseFailed
            || frame.event_type is ResponseIncomplete,
        frame.payload is Response,
    ensures
        ({
            let b = crate::accumulator::event_step(a, frame, fresh);
            &&& frame.event_type is ResponseCompleted ==> b.status is Completed
            &&& frame.event_type is ResponseFailed ==> b.status is Error
            &&& frame.event_type is ResponseIncomplete ==> b.status is Incomplete
            &&& b.usage == frame.payload->Response_usage
            &&& b.response_id == a.response_id
            &&& b.output == crate::accumulator::all_ended(
                AccumulatorView { status: b.status, ..a },
            ).output
        }),
{
    items_reach_the_output(a);
    items_reach_the_output(AccumulatorView { status: ResponseStatus::Completed, ..a });
    items_reach_the_output(AccumulatorView { status: ResponseStatus::Error, ..a });
    items_reach_the_output(AccumulatorView { status: ResponseStatus::Incomplete, ..a });
}

/// A stream that ends without having said how is completed; one that said so keeps its status.
/// It is an error only where one was met, and then the first.
pub proof fn streams_end(a: AccumulatorView)
    ensures
        ({
            let b = crate::accumulator::stream_ended(a);
            &&& a.status is InProgress ==> b.status is Completed
            &&& !(a.status is InProgress) ==> b.status == a.status
            &&& b.output == crate::accumulator::all_ended(a).output
            &&& b.usage == a.usage
            &&& b.response_id == a.response_id
        }),
        a.processing_error is Some ==> crate::accumulator::streamed(a) == Err::<
            AccumulatorView,
            ExecutorErrorView,
        >(a.processing_error->0),
        a.processing_error is None && (forall|i: int|
            0 <= i < a.in_flight.len() ==> has_come(
                (#[trigger] a.in_flight[i]).1.item,
                a.tool_types,
            )) ==> crate::accumulator::streamed(a) == Ok::<AccumulatorView, ExecutorErrorView>(
            crate::accumulator::stream_ended(a),
        ),
{
    items_reach_the_output(a);
    let entries = crate::accumulator::entries_of(a.in_flight);
    ended_items_keep_the_rest(
        entries,
        AccumulatorView { in_flight: Seq::empty(), ..a },
        entries.len() as int,
    );
}

/// A native search that did not finish makes an error of a response that is completed, and is
/// left out of one that failed or was interrupted.
pub proof fn searches_must_finish(a: AccumulatorView, call: InFlightEntryView)
    requires
        a.in_flight.len() == 1,
        a.in_flight[0].1 == call,
        call.item is ToolSearchCall,
        !(call.item->ToolSearchCall_0.status is Completed),
        a.completed.len() == 0,
    ensures
        ({
            let b = crate::accumulator::all_ended(a);
            &&& b.output == a.output
            &&& a.status is Completed || a.status is InProgress ==> b.processing_error is Some
            &&& a.status is Error || a.status is Incomplete ==> b.processing_error
                == a.processing_error
        }),
{
    items_reach_the_output(a);
    let entries = crate::accumulator::entries_of(a.in_flight);
    assert(entries.len() == 1 && entries[0] == call);
    let a0 = AccumulatorView { in_flight: Seq::empty(), ..a };
    assert(crate::accumulator::end_items(entries, a0, 0) == a0);
    let a1 = crate::accumulator::end_items(entries, a0, 1);
    assert(a1.completed.len() == 0);
    assert(crate::accumulator::by_place(a1.completed) == a1.completed);
    assert(crate::accumulator::all_ended(a).output =~= a.output);
}

/// Why a response failed is what its last event says: the error, unless it is null, and the
/// reason of its incomplete details.
pub proof fn failures_say_why(
    a: AccumulatorView,
    frame: EventFrameView,
    response: Map<Seq<char>, JsonView>,
)
    requires
        frame.event_type is ResponseFailed || frame.event_type is ResponseIncomplete,
        frame.wire.rest.contains_key("response"@),
        frame.wire.rest["response"@] == JsonView::Object(response),
    ensures
        ({
            let b = crate::accumulator::details_captured(a, frame);
            &&& b == AccumulatorView {
                error: b.error,
                incomplete_details: b.incomplete_details,
                ..a
            }
            &&& response.contains_key("error"@) && !(response["error"@] is Null) ==> b.error
                == Some(response["error"@])
            &&& !response.contains_key("error"@) || response["error"@] is Null ==> b.error is None
            &&& forall|details: Map<Seq<char>, JsonView>, reason: Seq<char>|
                #![trigger says(details, "reason"@, reason)]
                response.contains_key("incomplete_details"@) && response["incomplete_details"@]
                    == JsonView::Object(details) && says(details, "reason"@, reason)
                    ==> b.incomplete_details == Some(
                    IncompleteDetailsView { reason: Some(reason) },
                )
            &&& !response.contains_key("incomplete_details"@) ==> b.incomplete_details is None
        }),
{
}

/// A response says what its state holds, each thing in its place.
pub proof fn responses_say_their_state(
    a: AccumulatorView,
    created_at: i64,
    model: Seq<char>,
    previous_response_id: Option<Seq<char>>,
    instructions: Option<Seq<char>>,
)
    ensures
        ({
            let r = crate::accumulator::response_of(
                a,
                created_at,
                model,
                previous_response_id,
                instructions,
            );
            &&& r.id == a.response_id && r.object == "response"@ && r.created_at == created_at
            &&& r.model == model && r.output == a.output && r.usage == a.usage
            &&& r.incomplete_details == a.incomplete_details && r.error == a.error
            &&& r.previous_response_id == previous_response_id && r.conversation_id
                == a.conversation_id && r.instructions == instructions
            &&& a.status is InProgress ==> r.status == "in_progress"@
            &&& a.status is Completed ==> r.status == "completed"@
            &&& a.status is Incomplete ==> r.status == "incomplete"@
            &&& a.status is Error ==> r.status == "error"@
        }),
{
}

pub(crate) proof fn statuses_differ()
    ensures
        "completed"@ != "incomplete"@,
        "completed"@ != "failed"@,
        "completed"@ != "error"@,
        "completed"@ != "in_progress"@,
        "incomplete"@ != "failed"@,
        "incomplete"@ != "error"@,
        "incomplete"@ != "in_progress"@,
        "failed"@ != "in_progress"@,
        "error"@ != "in_progress"@,
{
    reveal_strlit("completed");
    reveal_strlit("incomplete");
    reveal_strlit("failed");
    reveal_strlit("error");
    reveal_strlit("in_progress");
    assert("completed"@.len() == 9);
    assert("incomplete"@.len() == 10);
    assert("failed"@.len() == 6);
    assert("error"@.len() == 5);
    assert("in_progress"@.len() == 11);
}

proof fn readable_items_are_there(items: Seq<JsonView>, n: int)
    requires
        0 <= n <= items.len(),
    ensures
        ({
            let read = crate::wire::readable_of::<OutputItem>(items, n);
            &&& read.len() <= n
            &&& forall|i: int, item: OutputItemView|
                #![trigger items[i], read.contains(item)]
                0 <= i < n && <OutputItem as FromJson>::of_json(items[i]) == Some(item)
                    ==> read.contains(item)
            &&& (forall|i: int|
                0 <= i < n ==> <OutputItem as FromJson>::of_json(#[trigger] items[i]) is Some)
                ==> read.len() == n && forall|i: int|
                0 <= i < n ==> Some(#[trigger] read[i]) == <OutputItem as FromJson>::of_json(
                    items[i],
                )
        }),
    decreases n,
{
    if n > 0 {
        readable_items_are_there(items, n - 1);
        let before = crate::wire::readable_of::<OutputItem>(items, n - 1);
        let read = crate::wire::readable_of::<OutputItem>(items, n);
        assert forall|i: int, item: OutputItemView|
            #![trigger items[i], read.contains(item)]
            0 <= i < n && <OutputItem as FromJson>::of_json(items[i]) == Some(
                item,
            ) implies read.contains(item) by {
            if i < n - 1 {
                assert(before.contains(item));
                let k = before.index_of(item);
                assert(read[k] == item);
            } else {
                assert(read[read.len() - 1] == item);
            }
        }
    }
}

/// A body without an identity is refused. Another gives its identity, its status and the items
/// of its output that can be read, in their order, and nothing is left in flight.
pub proof fn bodies_are_read(
    fields: Map<Seq<char>, JsonView>,
    conversation_id: Option<Seq<char>>,
    id: Seq<char>,
    items: Seq<JsonView>,
)
    requires
        says(fields, "id"@, id),
        fields.contains_key("output"@),
        fields["output"@] == JsonView::Array(items),
    ensures
        ({
            let read = crate::accumulator::accumulator_of_json(
                Ok(JsonView::Object(fields)),
                conversation_id,
            );
            let a = read->Ok_0;
            &&& read is Ok
            &&& a.response_id == id
            &&& a.conversation_id == conversation_id
            &&& a.in_flight.len() == 0 && a.completed.len() == 0 && a.processing_error is None
            &&& a.output.len() <= items.len()
            &&& forall|i: int, item: OutputItemView|
                #![trigger items[i], a.output.contains(item)]
                0 <= i < items.len() && <OutputItem as FromJson>::of_json(items[i]) == Some(item)
                    ==> a.output.contains(item)
            &&& (forall|i: int|
                0 <= i < items.len() ==> <OutputItem as FromJson>::of_json(#[trigger] items[i])
                    is Some) ==> a.output.len() == items.len() && forall|i: int|
                0 <= i < items.len() ==> Some(#[trigger] a.output[i])
                    == <OutputItem as FromJson>::of_json(items[i])
            &&& !fields.contains_key("status"@) ==> a.status is Completed
            &&& says(fields, "status"@, "completed"@) ==> a.status is Completed
            &&& says(fields, "status"@, "incomplete"@) ==> a.status is Incomplete
            &&& says(fields, "status"@, "failed"@) ==> a.status is Error
            &&& says(fields, "status"@, "error"@) ==> a.status is Error
            &&& says(fields, "status"@, "in_progress"@) ==> a.status is InProgress
            &&& fields.contains_key("error"@) && !(fields["error"@] is Null) ==> a.error == Some(
                fields["error"@],
            )
            &&& !fields.contains_key("error"@) ==> a.error is None
        }),
{
    statuses_differ();
    readable_items_are_there(items, items.len() as int);
}

/// A body that is no JSON or has no identity is an error.
pub proof fn other_bodies_are_refused(
    fields: Map<Seq<char>, JsonView>,
    reason: Seq<char>,
    conversation_id: Option<Seq<char>>,
)
    requires
        !fields.contains_key("id"@),
    ensures
        crate::accumulator::accumulator_of_json(Ok(JsonView::Object(fields)), conversation_id)
            is Err,
        crate::accumulator::accumulator_of_json(Err(reason), conversation_id) == Err::<
            AccumulatorView,
            ExecutorErrorView,
        >(ExecutorErrorView::ParseError(reason)),
{
}

/// A function call in flight is known by its identity and place, with what was gathered.
pub proof fn calls_in_flight_are_known(
    a: AccumulatorView,
    item_id: Seq<char>,
    output_index: u32,
    i: int,
)
    requires
        is_about(a.in_flight, item_id, output_index, i),
    ensures
        ({
            let known = crate::accumulator::known_call(a, item_id, output_index);
            &&& known is Some
            &&& known->0.item == a.in_flight[i].1.item->FunctionCall_item
            &&& known->0.gathered == a.in_flight[i].1.item->FunctionCall_arguments
            &&& known->0.output_index == output_index
        }),
{
    call_is_found(a.in_flight, item_id, output_index, i);
}

/// Whether an output item is neither a function call nor a search.
pub open spec fn is_plain_item(item: OutputItemView) -> bool {
    !(item is FunctionCall) && !(item is ToolSearchCall)
}

/// Items that are neither function calls nor searches stay as they are and in their order, and
/// so do calls of functions that are neither withheld nor that of the search.
pub proof fn plain_items_stay(
    output: Seq<OutputItemView>,
    tool_types: Map<Seq<char>, ToolType>,
    withheld: Set<Seq<char>>,
    discard: bool,
    n: int,
)
    requires
        0 <= n <= output.len(),
        forall|i: int|
            0 <= i < n ==> is_plain_item(#[trigger] output[i]) || (output[i] is FunctionCall
                && !withheld.contains(output[i]->FunctionCall_0.name) && !(tool_types.contains_key(
                output[i]->FunctionCall_0.name,
            ) && tool_types[output[i]->FunctionCall_0.name] is ToolSearch)),
    ensures
        crate::accumulator::typed_output(output, tool_types, withheld, discard, n) == Ok::<
            Seq<OutputItemView>,
            ExecutorErrorView,
        >(output.take(n)),
    decreases n,
{
    if n > 0 {
        plain_items_stay(output, tool_types, withheld, discard, n - 1);
        let item = output[n - 1];
        assert(output.take(n) =~= output.take(n - 1).push(item));
    } else {
        assert(output.take(0) =~= Seq::empty());
    }
}

/// An output that holds a call of a withheld function is refused, whatever else it holds.
pub proof fn withheld_calls_are_refused(
    output: Seq<OutputItemView>,
    tool_types: Map<Seq<char>, ToolType>,
    withheld: Set<Seq<char>>,
    discard: bool,
    i: int,
    n: int,
)
    requires
        0 <= i < n <= output.len(),
        output[i] is FunctionCall,
        withheld.contains(output[i]->FunctionCall_0.name),
    ensures
        crate::accumulator::typed_output(output, tool_types, withheld, discard, n) is Err,
    decreases n,
{
    if n > i + 1 {
        withheld_calls_are_refused(output, tool_types, withheld, discard, i, n - 1);
    }
}

/// A finished call of the function that stands for the search is shown as a search of the
/// client with the call's id and arguments. One that did not finish is left out of a response
/// that failed.
pub proof fn search_calls_are_made_public(
    call: FunctionToolCallView,
    tool_types: Map<Seq<char>, ToolType>,
    withheld: Set<Seq<char>>,
    arguments: Map<Seq<char>, JsonView>,
)
    requires
        tool_types.contains_key(call.name),
        tool_types[call.name] is ToolSearch,
        !withheld.contains(call.name),
    ensures
        ({
            let output = seq![OutputItemView::FunctionCall(call)];
            let kept = crate::accumulator::typed_output(output, tool_types, withheld, false, 1);
            let failed = crate::accumulator::typed_output(output, tool_types, withheld, true, 1);
            &&& call.namespace is None && !crate::text::blank(call.id) && !crate::text::blank(
                call.call_id,
            ) && crate::json::parsed_json(call.arguments) == Some(JsonView::Object(arguments)) ==> {
                &&& kept is Ok
                &&& kept->Ok_0.len() == 1
                &&& kept->Ok_0[0] is ToolSearchCall
                &&& kept->Ok_0[0]->ToolSearchCall_0.call_id == call.call_id
                &&& kept->Ok_0[0]->ToolSearchCall_0.arguments == arguments
                &&& kept->Ok_0[0]->ToolSearchCall_0.status is Completed
            }
            &&& call.namespace is Some || crate::text::blank(call.call_id) ==> kept is Err
            &&& !(call.status is Completed) ==> failed == Ok::<
                Seq<OutputItemView>,
                ExecutorErrorView,
            >(Seq::empty())
        }),
{
    let output = seq![OutputItemView::FunctionCall(call)];
    assert(crate::accumulator::typed_output(output, tool_types, withheld, false, 0) == Ok::<
        Seq<OutputItemView>,
        ExecutorErrorView,
    >(Seq::empty()));
    assert(crate::accumulator::typed_output(output, tool_types, withheld, true, 0) == Ok::<
        Seq<OutputItemView>,
        ExecutorErrorView,
    >(Seq::empty()));
    assert(output[0] == OutputItemView::FunctionCall(call));
}

/// A stream with a line whose data is no JSON is an error that says what is wrong with the first
/// such line; the end mark and lines without data are none.
pub proof fn unreadable_lines_are_errors(
    lines: Seq<Seq<char>>,
    read: AccumulatorView,
    i: int,
    reason: Seq<char>,
)
    requires
        0 <= i < lines.len(),
        crate::accumulator::unreadable(lines[i]) == Some(reason),
        forall|j: int| 0 <= j < i ==> crate::accumulator::unreadable(#[trigger] lines[j]) is None,
    ensures
        crate::accumulator::stream_read(lines, read) == Err::<AccumulatorView, ExecutorErrorView>(
            ExecutorErrorView::ParseError(reason),
        ),
{
    first_unreadable_is_told(lines, i, reason, 0);
}

proof fn first_unreadable_is_told(lines: Seq<Seq<char>>, i: int, reason: Seq<char>, n: int)
    requires
        0 <= n <= i < lines.len(),
        crate::accumulator::unreadable(lines[i]) == Some(reason),
        forall|j: int| 0 <= j < i ==> crate::accumulator::unreadable(#[trigger] lines[j]) is None,
    ensures
        crate::accumulator::first_unreadable(lines, n) == Some(reason),
    decreases i - n,
{
    if n < i {
        assert(crate::accumulator::unreadable(lines[n]) is None);
        first_unreadable_is_told(lines, i, reason, n + 1);
    }
}

/// A line is unreadable exactly where it carries data other than the end mark that is no JSON.
pub proof fn data_must_be_json(data: Seq<char>)
    requires
        crate::text_laws::is_tight(data),
    ensures
        ({
            let line = "data: "@ + data;
            let read = crate::json::read_json(data);
            &&& data != "[DONE]"@ && read is Err ==> crate::accumulator::unreadable(line) == Some(
                read->Err_0,
            )
            &&& data != "[DONE]"@ && read is Ok ==> crate::accumulator::unreadable(line) is None
            &&& data == "[DONE]"@ ==> crate::accumulator::unreadable(line) is None
            &&& !crate::text::has_prefix(data, "data: "@) ==> crate::accumulator::unreadable(data)
                is None
        }),
{
    crate::text_laws::prefixes_are_beginnings("data: "@, data, Seq::empty());
    assert(("data: "@ + data).skip("data: "@.len() as int) =~= data);
    crate::text_laws::ends_are_trimmed(Seq::empty(), data, Seq::empty());
    assert(Seq::<char>::empty() + data + Seq::<char>::empty() =~= data);
}

/// The lines of a stream are read one after the other: reading more lines goes on from the state
/// after the first of them.
pub proof fn lines_are_read_in_order(
    a: AccumulatorView,
    lines: Seq<Seq<char>>,
    fresh: Seq<Seq<char>>,
    n: int,
)
    requires
        0 <= n < lines.len(),
    ensures
        ({
            let before = crate::accumulator::lines_read(a, lines, fresh, n);
            let after = crate::accumulator::lines_read(a, lines, fresh, n + 1);
            let frame = crate::events::line_frame(lines[n]);
            &&& frame is None ==> after == before
            &&& frame is Some ==> after == crate::accumulator::event_step(
                crate::accumulator::details_captured(before, frame->0),
                frame->0,
                fresh[n],
            )
        }),
        crate::accumulator::lines_read(a, lines, fresh, 0) == a,
{
}

/// A response that was just begun has its identity and conversation, and nothing else.
pub proof fn responses_begin_empty(
    response_id: Seq<char>,
    conversation_id: Option<Seq<char>>,
)
    ensures
        ({
            let a = crate::accumulator::fresh_accumulator(response_id, conversation_id);
            &&& a.response_id == response_id && a.conversation_id == conversation_id
            &&& a.output.len() == 0 && a.in_flight.len() == 0 && a.completed.len() == 0
            &&& a.usage is None && a.status is InProgress && a.error is None
                && a.incomplete_details is None && a.processing_error is None
        }),
{
}

/// A server's call, a list of its tools and a compaction that are done are what the done item
/// says, under its own identity or else the one under which it began; an item that says none of
/// it stays as it was.
pub proof fn done_items_are_taken_over(
    a: AccumulatorView,
    frame: EventFrameView,
    fresh: Seq<char>,
    i: int,
    fields: Map<Seq<char>, JsonView>,
)
    requires
        frame.event_type is OutputItemDone,
        frame.payload is OutputItemDone,
        frame.payload->OutputItemDone_item == JsonView::Object(fields),
        is_under(a.in_flight, frame.payload->OutputItemDone_item_id, i),
        a.in_flight[i].1.output_index == frame.payload->OutputItemDone_output_index,
        a.in_flight[i].1.item is McpCall && frame.payload->OutputItemDone_item_type is McpCall
            || a.in_flight[i].1.item is McpListTools && frame.payload->OutputItemDone_item_type
            is McpListTools || a.in_flight[i].1.item is Compaction
            && frame.payload->OutputItemDone_item_type is Compaction,
    ensures
        ({
            let b = crate::accumulator::event_step(a, frame, fresh);
            let was = a.in_flight[i].1.item;
            let is = b.in_flight[i].1.item;
            &&& only_item_changed(a, b, i)
            &&& was is McpCall ==> is is McpCall
            &&& was is McpListTools ==> is is McpListTools
            &&& was is Compaction ==> is is Compaction
            &&& was is McpCall && crate::wire_items::mcp_call_of(fields) is Some ==> {
                let done = crate::wire_items::mcp_call_of(fields)->0;
                &&& is->McpCall_item.name == done.name && is->McpCall_item.arguments
                    == done.arguments && is->McpCall_item.output == done.output
                    && is->McpCall_item.error == done.error && is->McpCall_item.server_label
                    == done.server_label && is->McpCall_item.status == done.status
                &&& done.id.len() > 0 ==> is->McpCall_item.id == done.id
                &&& done.id.len() == 0 ==> is->McpCall_item.id == was->McpCall_item.id
            }
            &&& was is McpCall && crate::wire_items::mcp_call_of(fields) is None ==> is == was
            &&& was is McpListTools && crate::wire_items::mcp_list_of(fields) is Some ==> {
                let done = crate::wire_items::mcp_list_of(fields)->0;
                &&& is->McpListTools_item.tools == done.tools
                    && is->McpListTools_item.server_label == done.server_label
                    && is->McpListTools_item.error == done.error
                &&& done.id.len() > 0 ==> is->McpListTools_item.id == done.id
            }
            &&& was is Compaction && crate::wire_items::compaction_of(fields) is Some
                ==> is->Compaction_item.encrypted_content == crate::wire_items::compaction_of(
                fields,
            )->0.encrypted_content
        }),
{
    under_is_found(a.in_flight, frame.payload->OutputItemDone_item_id, i, 0);
}

/// A web search that is done is the item that came, under its own identity or else the one under
/// which it began.
pub proof fn done_searches_are_taken_over(
    a: AccumulatorView,
    frame: EventFrameView,
    fresh: Seq<char>,
    i: int,
    done: crate::items::WebSearchCallView,
)
    requires
        frame.event_type is OutputItemDone,
        frame.payload is OutputItemDone,
        frame.payload->OutputItemDone_item_type is WebSearchCall,
        is_under(a.in_flight, frame.payload->OutputItemDone_item_id, i),
        a.in_flight[i].1.output_index == frame.payload->OutputItemDone_output_index,
        a.in_flight[i].1.item is WebSearchCall,
        <OutputItem as FromJson>::of_json(frame.payload->OutputItemDone_item) == Some(
            OutputItemView::WebSearchCall(done),
        ),
    ensures
        ({
            let b = crate::accumulator::event_step(a, frame, fresh);
            let is = b.in_flight[i].1.item;
            &&& only_item_changed(a, b, i)
            &&& is is WebSearchCall && is->WebSearchCall_item is Some
            &&& is->WebSearchCall_item->0.action == done.action
                && is->WebSearchCall_item->0.status == done.status
            &&& done.id.len() > 0 ==> is->WebSearchCall_item->0.id == done.id
            &&& done.id.len() == 0 && a.in_flight[i].0.len() > 0 ==> is->WebSearchCall_item->0.id
                == a.in_flight[i].0
        }),
{
    under_is_found(a.in_flight, frame.payload->OutputItemDone_item_id, i, 0);
}

/// A finished call of the search function becomes the client's search in its place; where it is
/// malformed that is an error, and the call is completed as a call.
pub proof fn done_search_calls_become_searches(
    a: AccumulatorView,
    frame: EventFrameView,
    fresh: Seq<char>,
    i: int,
    fields: Map<Seq<char>, JsonView>,
    text: Seq<char>,
    arguments: Map<Seq<char>, JsonView>,
)
    requires
        frame.event_type is OutputItemDone,
        frame.payload is OutputItemDone,
        frame.payload->OutputItemDone_item_type is FunctionCall,
        frame.payload->OutputItemDone_item == JsonView::Object(fields),
        is_about(
            a.in_flight,
            frame.payload->OutputItemDone_item_id,
            frame.payload->OutputItemDone_output_index,
            i,
        ),
        a.tool_types.contains_key(a.in_flight[i].1.item->FunctionCall_item.name),
        a.tool_types[a.in_flight[i].1.item->FunctionCall_item.name] is ToolSearch,
        a.in_flight[i].1.item->FunctionCall_item.namespace is None,
        !fields.contains_key("namespace"@) && !fields.contains_key("id"@)
            && !fields.contains_key("call_id"@),
        says(fields, "arguments"@, text),
        text.len() > 0,
    ensures
        ({
            let b = crate::accumulator::event_step(a, frame, fresh);
            let was = a.in_flight[i].1.item->FunctionCall_item;
            let is = b.in_flight[i].1.item;
            let named = !crate::text::blank(was.id) && !crate::text::blank(was.call_id);
            &&& named && crate::json::parsed_json(text) == Some(JsonView::Object(arguments)) ==> {
                &&& only_item_changed(a, b, i)
                &&& is is ToolSearchCall
                &&& is->ToolSearchCall_0.call_id == was.call_id
                &&& is->ToolSearchCall_0.arguments == arguments
                &&& is->ToolSearchCall_0.status is Completed
            }
            &&& crate::json::parsed_json(text) is None ==> b.processing_error is Some && is
                is FunctionCall && is->FunctionCall_item.status is Completed
        }),
{
    call_is_found(
        a.in_flight,
        frame.payload->OutputItemDone_item_id,
        frame.payload->OutputItemDone_output_index,
        i,
    );
}

/// Of two finished items at one place the one that came first stays first.
pub proof fn items_at_one_place_keep_their_order(s: Seq<(u32, OutputItemView)>, place: u32)
    ensures
        at_place(crate::accumulator::by_place(s), place) == at_place(s, place),
    decreases s.len(),
{
    if s.len() > 0 {
        items_at_one_place_keep_their_order(s.drop_last(), place);
        inserted_comes_last(crate::accumulator::by_place(s.drop_last()), s.last(), place);
    }
}

/// The items at a place, in their order.
pub open spec fn at_place(s: Seq<(u32, OutputItemView)>, place: u32) -> Seq<OutputItemView>
    decreases s.len(),
{
    if s.len() == 0 {
        Seq::empty()
    } else if s.last().0 == place {
        at_place(s.drop_last(), place).push(s.last().1)
    } else {
        at_place(s.drop_last(), place)
    }
}

proof fn inserted_comes_last(
    s: Seq<(u32, OutputItemView)>,
    x: (u32, OutputItemView),
    place: u32,
)
    ensures
        at_place(crate::accumulator::insert_stable(s, x), place) == (if x.0 == place {
            at_place(s, place).push(x.1)
        } else {
            at_place(s, place)
        }),
    decreases s.len(),
{
    let after = crate::accumulator::insert_stable(s, x);
    if s.len() > 0 && s.last().0 > x.0 {
        inserted_comes_last(s.drop_last(), x, place);
        assert(after.drop_last() =~= crate::accumulator::insert_stable(s.drop_last(), x));
    } else {
        assert(after.drop_last() =~= s);
    }
}

/// A function call that is added without an identity, or under one that is in flight, is tracked
/// beside the others and takes nothing from them.
pub proof fn calls_under_taken_identities_are_tracked(
    a: AccumulatorView,
    frame: EventFrameView,
    fresh: Seq<char>,
)
    requires
        frame.event_type is OutputItemAdded,
        frame.payload is OutputItemAdded,
        frame.payload->OutputItemAdded_item_type is FunctionCall,
    ensures
        ({
            let b = crate::accumulator::event_step(a, frame, fresh);
            let entry = b.in_flight.last();
            &&& b == AccumulatorView { in_flight: a.in_flight.push(entry), ..a }
            &&& entry.1.output_index == frame.payload->OutputItemAdded_output_index
            &&& entry.1.item is FunctionCall
            &&& frame.payload->OutputItemAdded_call_id is Some
                ==> entry.1.item->FunctionCall_item.call_id
                == frame.payload->OutputItemAdded_call_id->0
            &&& is_free(a.in_flight, entry.0)
        }),
{
    let id = frame.payload->OutputItemAdded_item_id;
    let place = frame.payload->OutputItemAdded_output_index;
    let base = "__output_index_"@ + crate::text::decimal_text(place as nat);
    let key = if id.len() == 0 || crate::accumulator::key_taken(a.in_flight, id) {
        crate::accumulator::free_key(a.in_flight, base)
    } else {
        id
    };
    if id.len() == 0 || crate::accumulator::key_taken(a.in_flight, id) {
        crate::accumulator::free_key_is_free(a.in_flight, base);
    }
    assert(!crate::accumulator::key_taken(a.in_flight, key));
    not_found_is_free(a.in_flight, key, 0);
}

proof fn not_found_is_free(items: Seq<(Seq<char>, InFlightEntryView)>, key: Seq<char>, n: int)
    requires
        0 <= n <= items.len(),
        crate::in_flight::key_place(items, key, n) is None,
    ensures
        forall|j: int| n <= j < items.len() ==> (#[trigger] items[j]).0 != key,
    decreases items.len() - n,
{
    if n < items.len() {
        not_found_is_free(items, key, n + 1);
    }
}

/// An item that is added without an identity gets a fresh one, behind the prefix of its kind.
pub proof fn unnamed_items_get_fresh_identities(
    a: AccumulatorView,
    frame: EventFrameView,
    fresh: Seq<char>,
)
    requires
        frame.event_type is OutputItemAdded,
        frame.payload is OutputItemAdded,
        frame.payload->OutputItemAdded_item_id.len() == 0,
        a.in_flight.len() == 0,
    ensures
        ({
            let b = crate::accumulator::event_step(a, frame, fresh);
            let kind = frame.payload->OutputItemAdded_item_type;
            let item = b.in_flight[0].1.item;
            &&& kind is Message ==> b.in_flight.len() == 1 && id_in_flight(item) == Some(
                "msg_"@ + fresh,
            )
            &&& kind is Reasoning ==> b.in_flight.len() == 1 && id_in_flight(item) == Some(
                "rs_"@ + fresh,
            )
            &&& kind is FunctionCall ==> b.in_flight.len() == 1 && id_in_flight(item) == Some(
                "fc_"@ + fresh,
            )
            &&& kind is CustomToolCall ==> b.in_flight.len() == 1 && id_in_flight(item) == Some(
                "ctc_"@ + fresh,
            )
            &&& kind is McpCall ==> b.in_flight.len() == 1 && id_in_flight(item) == Some(
                "mcp_"@ + fresh,
            )
            &&& kind is McpListTools ==> b.in_flight.len() == 1 && id_in_flight(item) == Some(
                "mcpl_"@ + fresh,
            )
            &&& kind is WebSearchCall ==> b == a
        }),
{
    let key = frame.payload->OutputItemAdded_item_id;
    free_is_not_found(a.in_flight, key, 0);
    if frame.payload->OutputItemAdded_item_type is FunctionCall {
        calls_under_taken_identities_are_tracked(a, frame, fresh);
    }
}

/// A function call that is no longer in flight is known by its place: the last that finished
/// there, with its arguments.
pub proof fn finished_calls_are_known(
    a: AccumulatorView,
    item_id: Seq<char>,
    output_index: u32,
    k: int,
)
    requires
        a.in_flight.len() == 0,
        0 <= k < a.completed.len(),
        a.completed[k].0 == output_index,
        a.completed[k].1 is FunctionCall,
        forall|j: int|
            k < j < a.completed.len() && (#[trigger] a.completed[j]).1 is FunctionCall
                ==> a.completed[j].0 != output_index,
    ensures
        ({
            let known = crate::accumulator::known_call(a, item_id, output_index);
            &&& known is Some
            &&& known->0.item == a.completed[k].1->FunctionCall_0
            &&& known->0.output_index == output_index
        }),
{
    free_is_not_found(a.in_flight, item_id, 0);
    last_finished_is_found(a.completed, output_index, k, a.completed.len() as int);
}

proof fn last_finished_is_found(
    completed: Seq<(u32, OutputItemView)>,
    output_index: u32,
    k: int,
    n: int,
)
    requires
        0 <= k < n <= completed.len(),
        completed[k].0 == output_index,
        completed[k].1 is FunctionCall,
        forall|j: int|
            k < j < n && (#[trigger] completed[j]).1 is FunctionCall ==> completed[j].0
                != output_index,
    ensures
        crate::accumulator::finished_call(completed, output_index, n) == Some(
            completed[k].1->FunctionCall_0,
        ),
    decreases n,
{
    if k < n - 1 {
        let last = completed[n - 1];
        last_finished_is_found(completed, output_index, k, n - 1);
    }
}

/// A web search that was not tracked is taken, too; without an identity it gets a fresh one.
pub proof fn untracked_searches_are_named(
    a: AccumulatorView,
    frame: EventFrameView,
    fresh: Seq<char>,
    call: crate::items::WebSearchCallView,
)
    requires
        frame.event_type is OutputItemDone,
        frame.payload is OutputItemDone,
        a.in_flight.len() == 0,
        <OutputItem as FromJson>::of_json(frame.payload->OutputItemDone_item) == Some(
            OutputItemView::WebSearchCall(call),
        ),
    ensures
        ({
            let b = crate::accumulator::event_step(a, frame, fresh);
            let taken = b.completed.last().1->WebSearchCall_0;
            &&& b.completed.len() == a.completed.len() + 1
            &&& b.completed.drop_last() == a.completed
            &&& b.completed.last().0 == frame.payload->OutputItemDone_output_index
            &&& b.completed.last().1 is WebSearchCall
            &&& taken.status == call.status && taken.action == call.action
            &&& call.id.len() > 0 ==> taken.id == call.id
            &&& call.id.len() == 0 ==> taken.id == "ws_"@ + fresh
        }),
{
    free_is_not_found(a.in_flight, frame.payload->OutputItemDone_item_id, 0);
    assert(crate::accumulator::event_step(a, frame, fresh).completed.drop_last() =~= a.completed);
}

/// A search that is in flight is known by its identity and its place together.
pub proof fn searches_in_flight_are_known(
    a: AccumulatorView,
    item_id: Seq<char>,
    output_index: u32,
    i: int,
)
    requires
        0 <= i < a.in_flight.len(),
        a.in_flight[i].0 == item_id,
        forall|j: int| 0 <= j < i ==> (#[trigger] a.in_flight[j]).0 != item_id,
    ensures
        ({
            let known = crate::accumulator::known_search(a, item_id, output_index);
            let entry = a.in_flight[i].1;
            &&& known is Some <==> entry.item is ToolSearchCall && entry.output_index
                == output_index
            &&& known is Some ==> known->0 == entry.item->ToolSearchCall_0
        }),
{
    first_key_is_found(a.in_flight, item_id, i, 0);
}

proof fn first_key_is_found(
    items: Seq<(Seq<char>, InFlightEntryView)>,
    key: Seq<char>,
    i: int,
    n: int,
)
    requires
        0 <= n <= i < items.len(),
        items[i].0 == key,
        forall|j: int| 0 <= j < i ==> (#[trigger] items[j]).0 != key,
    ensures
        crate::in_flight::key_place(items, key, n) == Some(i),
    decreases i - n,
{
    if n < i {
        let passed = items[n];
        first_key_is_found(items, key, i, n + 1);
    }
}

} // verus!
