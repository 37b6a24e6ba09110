//! What is read of a stream's lines: each event says what its fields say.
use vstd::prelude::*;

#[allow(unused_imports)]
use crate::events::{EventFrameView, EventPayloadView, SSEEventType, SSEItemType, WireEventView};
#[allow(unused_imports)]
use crate::json::JsonView;
#[allow(unused_imports)]
use crate::payload::ResponseUsage;

verus! {

/// A number that was written is read back.
pub proof fn numbers_are_read_back(n: u64)
    ensures
        crate::json::number_u64(crate::text::decimal_text(n as nat)) == Some(n),
{
    digits_are_read_back(n as nat);
    crate::text_laws::numbers_are_written_in_decimal(n as nat);
}

proof fn digits_are_read_back(n: nat)
    ensures
        crate::json::digits_value(crate::text::decimal_text(n)) == Some(n),
    decreases n,
{
    let text = crate::text::decimal_text(n);
    if n >= 10 {
        digits_are_read_back(n / 10);
        assert(text.drop_last() =~= crate::text::decimal_text(n / 10));
        assert(text.last() == (0x30 + n % 10) as char);
    } else {
        assert(text.drop_last() =~= Seq::empty());
        assert(crate::json::digits_value(text.drop_last()) == Some(0nat));
        assert(text.last() == (0x30 + n) as char);
    }
}

/// Whether a field says a number.
pub open spec fn counts(fields: Map<Seq<char>, JsonView>, key: Seq<char>, n: u64) -> bool {
    fields.contains_key(key) && fields[key] == JsonView::Number(
        crate::text::decimal_text(n as nat),
    )
}

/// Whether a field says a text, or is absent and the text is empty.
pub open spec fn says_or_empty(
    fields: Map<Seq<char>, JsonView>,
    key: Seq<char>,
    text: Seq<char>,
) -> bool {
    crate::accumulator_laws::says(fields, key, text) || (!fields.contains_key(key) && text.len()
        == 0)
}

/// A piece of an item names its item and its place and carries its text, whatever its kind.
pub proof fn pieces_are_read(
    fields: Map<Seq<char>, JsonView>,
    item_id: Seq<char>,
    text: Seq<char>,
    place: u32,
)
    requires
        says_or_empty(fields, "item_id"@, item_id),
        counts(fields, "output_index"@, place as u64) || (!fields.contains_key("output_index"@)
            && place == 0),
    ensures
        says_or_empty(fields, "delta"@, text) ==> ({
            let t = crate::events::payload_of(SSEEventType::OutputTextDelta, fields);
            let r = crate::events::payload_of(SSEEventType::ReasoningTextDelta, fields);
            let a = crate::events::payload_of(SSEEventType::FunctionCallArgumentsDelta, fields);
            let c = crate::events::payload_of(SSEEventType::CustomToolCallInputDelta, fields);
            &&& t is TextDelta && t->TextDelta_delta == text && t->TextDelta_item_id == item_id
                && t->TextDelta_output_index == place
            &&& r is ReasoningDelta && r->ReasoningDelta_delta == text
                && r->ReasoningDelta_item_id == item_id
            &&& a is FunctionCallArgsDelta && a->FunctionCallArgsDelta_delta == text
                && a->FunctionCallArgsDelta_item_id == item_id
                && a->FunctionCallArgsDelta_output_index == place
            &&& c is CustomToolCallInputDelta && c->CustomToolCallInputDelta_delta == text
                && c->CustomToolCallInputDelta_item_id == item_id
                && c->CustomToolCallInputDelta_output_index == place
        }),
        says_or_empty(fields, "text"@, text) ==> ({
            let t = crate::events::payload_of(SSEEventType::OutputTextDone, fields);
            let r = crate::events::payload_of(SSEEventType::ReasoningTextDone, fields);
            &&& t is TextDone && t->TextDone_text == text && t->TextDone_item_id == item_id
                && t->TextDone_output_index == place
            &&& r is ReasoningDone && r->ReasoningDone_text == text && r->ReasoningDone_item_id
                == item_id
        }),
        says_or_empty(fields, "arguments"@, text) ==> ({
            let a = crate::events::payload_of(SSEEventType::FunctionCallArgumentsDone, fields);
            &&& a is FunctionCallArgsDone && a->FunctionCallArgsDone_arguments == text
            &&& a->FunctionCallArgsDone_item_id == item_id
            &&& a->FunctionCallArgsDone_output_index == place
            &&& forall|name: Seq<char>|
                #![trigger says_or_empty(fields, "name"@, name)]
                says_or_empty(fields, "name"@, name) ==> a->FunctionCallArgsDone_name == name
            &&& forall|id: Seq<char>|
                #![trigger crate::accumulator_laws::says(fields, "call_id"@, id)]
                crate::accumulator_laws::says(fields, "call_id"@, id)
                    ==> a->FunctionCallArgsDone_call_id == Some(id)
        }),
        says_or_empty(fields, "input"@, text) ==> ({
            let c = crate::events::payload_of(SSEEventType::CustomToolCallInputDone, fields);
            &&& c is CustomToolCallInputDone && c->CustomToolCallInputDone_input == text
            &&& c->CustomToolCallInputDone_item_id == item_id
            &&& c->CustomToolCallInputDone_output_index == place
        }),
{
    numbers_are_read_back(place as u64);
    assert(item_id.len() == 0 ==> item_id =~= Seq::empty());
    assert(text.len() == 0 ==> text =~= Seq::empty());
    assert forall|name: Seq<char>|
        #![trigger says_or_empty(fields, "name"@, name)]
        says_or_empty(fields, "name"@, name) implies crate::wire::text_or(
        fields,
        "name"@,
        Seq::empty(),
    ) == name by {
        assert(name.len() == 0 ==> name =~= Seq::empty());
    }
}

/// An event about an item names the item, its kind and its place. One that adds it gives the
/// call's id, name and namespace too; one that it is done gives the whole item.
pub proof fn items_are_read(
    fields: Map<Seq<char>, JsonView>,
    item: Map<Seq<char>, JsonView>,
    id: Seq<char>,
    place: u32,
)
    requires
        fields.contains_key("item"@),
        fields["item"@] == JsonView::Object(item),
        crate::accumulator_laws::says(item, "id"@, id),
        counts(fields, "output_index"@, place as u64) || (!fields.contains_key("output_index"@)
            && place == 0),
    ensures
        ({
            let added = crate::events::payload_of(SSEEventType::OutputItemAdded, fields);
            let done = crate::events::payload_of(SSEEventType::OutputItemDone, fields);
            &&& added is OutputItemAdded && done is OutputItemDone
            &&& added->OutputItemAdded_item_id == id && done->OutputItemDone_item_id == id
            &&& added->OutputItemAdded_output_index == place && done->OutputItemDone_output_index
                == place
            &&& done->OutputItemDone_item == JsonView::Object(item)
            &&& forall|call_id: Seq<char>|
                #![trigger crate::accumulator_laws::says(item, "call_id"@, call_id)]
                crate::accumulator_laws::says(item, "call_id"@, call_id)
                    ==> added->OutputItemAdded_call_id == Some(call_id)
            &&& forall|name: Seq<char>|
                #![trigger crate::accumulator_laws::says(item, "name"@, name)]
                crate::accumulator_laws::says(item, "name"@, name) && name.len() > 0
                    ==> added->OutputItemAdded_name == Some(name)
            &&& forall|namespace: Seq<char>|
                #![trigger crate::accumulator_laws::says(item, "namespace"@, namespace)]
                crate::accumulator_laws::says(item, "namespace"@, namespace)
                    ==> added->OutputItemAdded_namespace == Some(namespace)
            &&& forall|execution: Seq<char>|
                #![trigger crate::accumulator_laws::says(item, "execution"@, execution)]
                crate::accumulator_laws::says(item, "execution"@, execution)
                    ==> added->OutputItemAdded_execution == Some(execution)
            &&& forall|status: Seq<char>|
                #![trigger crate::accumulator_laws::says(item, "status"@, status)]
                crate::accumulator_laws::says(item, "status"@, status)
                    ==> added->OutputItemAdded_status == Some(status)
            &&& !item.contains_key("execution"@) ==> added->OutputItemAdded_execution is None
            &&& !item.contains_key("status"@) ==> added->OutputItemAdded_status is None
            &&& !item.contains_key("call_id"@) ==> added->OutputItemAdded_call_id is None
            &&& !item.contains_key("name"@) ==> added->OutputItemAdded_name is None
            &&& !item.contains_key("namespace"@) ==> added->OutputItemAdded_namespace is None
            &&& item.contains_key("arguments"@) ==> added->OutputItemAdded_arguments == Some(
                item["arguments"@],
            )
            &&& is_kind(item, added->OutputItemAdded_item_type)
            &&& is_kind(item, done->OutputItemDone_item_type)
        }),
{
    numbers_are_read_back(place as u64);
    kinds_differ();
}

/// Whether the kind of an item is the one that the item says.
pub open spec fn is_kind(item: Map<Seq<char>, JsonView>, kind: SSEItemType) -> bool {
    &&& crate::accumulator_laws::says(item, "type"@, "message"@) ==> kind is Message
    &&& crate::accumulator_laws::says(item, "type"@, "reasoning"@) ==> kind is Reasoning
    &&& crate::accumulator_laws::says(item, "type"@, "function_call"@) ==> kind is FunctionCall
    &&& crate::accumulator_laws::says(item, "type"@, "custom_tool_call"@) ==> kind
        is CustomToolCall
    &&& crate::accumulator_laws::says(item, "type"@, "web_search_call"@) ==> kind
        is WebSearchCall
    &&& crate::accumulator_laws::says(item, "type"@, "mcp_call"@) ==> kind is McpCall
    &&& crate::accumulator_laws::says(item, "type"@, "mcp_list_tools"@) ==> kind is McpListTools
    &&& crate::accumulator_laws::says(item, "type"@, "tool_search_call"@) ==> kind
        is ToolSearchCall
    &&& crate::accumulator_laws::says(item, "type"@, "compaction"@) ==> kind is Compaction
}

proof fn kinds_differ()
    ensures
        crate::events::item_type_of("message"@) is Message,
        crate::events::item_type_of("reasoning"@) is Reasoning,
        crate::events::item_type_of("function_call"@) is FunctionCall,
        crate::events::item_type_of("custom_tool_call"@) is CustomToolCall,
        crate::events::item_type_of("web_search_call"@) is WebSearchCall,
        crate::events::item_type_of("mcp_call"@) is McpCall,
        crate::events::item_type_of("mcp_list_tools"@) is McpListTools,
        crate::events::item_type_of("tool_search_call"@) is ToolSearchCall,
        crate::events::item_type_of("compaction"@) is Compaction,
{
    reveal_strlit("message");
    reveal_strlit("reasoning");
    reveal_strlit("function_call");
    reveal_strlit("custom_tool_call");
    reveal_strlit("web_search_call");
    reveal_strlit("mcp_call");
    reveal_strlit("mcp_list_tools");
    reveal_strlit("tool_search_call");
    reveal_strlit("compaction");
    assert("message"@.len() == 7);
    assert("reasoning"@.len() == 9);
    assert("function_call"@.len() == 13);
    assert("custom_tool_call"@.len() == 16 && "custom_tool_call"@[0] == 'c');
    assert("web_search_call"@.len() == 15);
    assert("mcp_call"@.len() == 8);
    assert("mcp_list_tools"@.len() == 14);
    assert("tool_search_call"@.len() == 16 && "tool_search_call"@[0] == 't');
    assert("compaction"@.len() == 10);
}

/// An event about a response gives the response's identity and usage, whatever its kind.
pub proof fn responses_are_read(
    fields: Map<Seq<char>, JsonView>,
    response: Map<Seq<char>, JsonView>,
    id: Seq<char>,
    event_type: SSEEventType,
)
    requires
        fields.contains_key("response"@),
        fields["response"@] == JsonView::Object(response),
        crate::accumulator_laws::says(response, "id"@, id),
        event_type is ResponseCreated || event_type is ResponseInProgress || event_type
            is ResponseCompleted || event_type is ResponseFailed || event_type
            is ResponseIncomplete,
    ensures
        ({
            let p = crate::events::payload_of(event_type, fields);
            &&& p is Response
            &&& p->Response_id == id
            &&& !response.contains_key("usage"@) ==> p->Response_usage is None
            &&& response.contains_key("usage"@) ==> p->Response_usage == crate::events::usage_of(
                Some(response["usage"@]),
            )
        }),
{
}

/// Each count of a usage is the one that its own field says. A usage without its three totals
/// is none.
pub proof fn usages_are_read(
    usage: Map<Seq<char>, JsonView>,
    input: u64,
    output: u64,
    total: u64,
    inner: Map<Seq<char>, JsonView>,
    outer: Map<Seq<char>, JsonView>,
    cached: u64,
    reasoning: u64,
)
    requires
        counts(usage, "input_tokens"@, input),
        counts(usage, "output_tokens"@, output),
        counts(usage, "total_tokens"@, total),
    ensures
        ({
            let read = crate::events::usage_of(Some(JsonView::Object(usage)));
            &&& read is Some
            &&& read->0.input_tokens == input
            &&& read->0.output_tokens == output
            &&& read->0.total_tokens == total
            &&& usage.contains_key("input_tokens_details"@) && usage["input_tokens_details"@]
                == JsonView::Object(inner) && counts(inner, "cached_tokens"@, cached)
                ==> read->0.cached_tokens == cached
            &&& usage.contains_key("output_tokens_details"@) && usage["output_tokens_details"@]
                == JsonView::Object(outer) && counts(outer, "reasoning_tokens"@, reasoning)
                ==> read->0.reasoning_tokens == reasoning
            &&& !usage.contains_key("input_tokens_details"@) ==> read->0.cached_tokens == 0
            &&& !usage.contains_key("output_tokens_details"@) ==> read->0.reasoning_tokens == 0
        }),
        crate::events::usage_of(None) is None,
        crate::events::usage_of(Some(JsonView::Object(usage.remove("total_tokens"@)))) is None,
        crate::events::usage_of(Some(JsonView::Object(usage.remove("input_tokens"@)))) is None,
        crate::events::usage_of(Some(JsonView::Object(usage.remove("output_tokens"@)))) is None,
{
    numbers_are_read_back(input);
    numbers_are_read_back(output);
    numbers_are_read_back(total);
    numbers_are_read_back(cached);
    numbers_are_read_back(reasoning);
}

/// A line is an event only where its data is an object that says its type. The event is of the
/// kind that it says, and its wire form keeps every field.
pub proof fn lines_are_read(
    data: Seq<char>,
    fields: Map<Seq<char>, JsonView>,
    name: Seq<char>,
    place: u64,
    number: u64,
)
    requires
        crate::json::parsed_json(data) == Some(JsonView::Object(fields)),
    ensures
        ({
            let frame = crate::events::line_frame("data: "@ + data);
            &&& crate::accumulator_laws::says(fields, "type"@, name) ==> {
                &&& frame is Some
                &&& frame->0.event_type == crate::events::event_type_of(name)
                &&& frame->0.payload == crate::events::payload_of(frame->0.event_type, fields)
                &&& frame->0.wire.event_type == name
                &&& counts(fields, "output_index"@, place) ==> frame->0.wire.output_index == Some(
                    place,
                )
                &&& counts(fields, "sequence_number"@, number)
                    ==> frame->0.wire.sequence_number == Some(number)
                &&& forall|key: Seq<char>|
                    key != "type"@ && key != "output_index"@ && key != "sequence_number"@ ==> (
                    #[trigger] frame->0.wire.rest.contains_key(key)) == fields.contains_key(key)
                        && (fields.contains_key(key) ==> frame->0.wire.rest[key] == fields[key])
            }
            &&& !fields.contains_key("type"@) ==> frame is None
        }),
{
    numbers_are_read_back(place);
    numbers_are_read_back(number);
    crate::text_laws::prefixes_are_beginnings("data: "@, data, Seq::empty());
    assert(("data: "@ + data).skip("data: "@.len() as int) =~= data);
    let keys = seq!["type"@, "output_index"@, "sequence_number"@];
    reveal_with_fuel(crate::wire::without, 4);
    assert(keys.drop_last() =~= seq!["type"@, "output_index"@]);
    assert(keys.drop_last().drop_last() =~= seq!["type"@]);
    assert(keys.drop_last().drop_last().drop_last() =~= Seq::empty());
    assert(crate::wire::without(fields, keys) == fields.remove("type"@).remove(
        "output_index"@,
    ).remove("sequence_number"@));
}

/// A line that carries no data, or data that is no object, is no event.
pub proof fn other_lines_are_no_events(line: Seq<char>)
    ensures
        !crate::text::has_prefix(line, "data: "@) ==> crate::events::line_frame(line) is None,
        crate::json::parsed_json(line.skip("data: "@.len() as int)) is None
            ==> crate::events::line_frame(line) is None,
        crate::events::frame_of(None) is None,
        crate::events::frame_of(Some(JsonView::Null)) is None,
{
}

/// What is written of an event says its type, its place and its number, and every other field
/// as it is.
pub proof fn events_are_written_whole(wire: WireEventView)
    ensures
        ({
            let fields = crate::events::wire_fields(wire);
            &&& wire.output_index is Some ==> counts(
                fields,
                "output_index"@,
                wire.output_index->0,
            )
            &&& wire.sequence_number is Some ==> counts(
                fields,
                "sequence_number"@,
                wire.sequence_number->0,
            )
            &&& crate::accumulator_laws::says(fields, "type"@, wire.event_type)
            &&& forall|key: Seq<char>|
                wire.rest.contains_key(key) && key != "type"@ && key != "output_index"@ && key
                    != "sequence_number"@ ==> #[trigger] fields.contains_key(key) && fields[key]
                    == wire.rest[key]
        }),
{
    reveal_strlit("type");
    reveal_strlit("output_index");
    reveal_strlit("sequence_number");
    assert("type"@.len() == 4);
    assert("output_index"@.len() == 12);
    assert("sequence_number"@.len() == 15);
}

/// An event that the gateway makes is written under the name of its kind, at its place and with
/// the fields that it was given.
pub proof fn made_events_are_as_given(
    event_type: SSEEventType,
    output_index: u32,
    fields: Map<Seq<char>, JsonView>,
)
    ensures
        ({
            let frame = crate::events::synthetic(event_type, output_index, fields);
            &&& frame.event_type == event_type
            &&& frame.wire.event_type == crate::events::event_name(event_type)
            &&& frame.wire.output_index is Some && frame.wire.output_index->0 == output_index
            &&& frame.wire.sequence_number is None
            &&& frame.wire.rest == fields
            &&& event_type is OutputTextDelta ==> frame.payload is TextDelta
                && frame.payload->TextDelta_output_index == output_index
        }),
{
    numbers_are_read_back(output_index as u64);
}

} // verus!
