//! What requests and responses say when they are read and written: each thing in its own place.
use vstd::prelude::*;

#[allow(unused_imports)]
use crate::items::{
    InputContent, InputContentView, InputItem, InputItemView, InputMessageContent,
    InputMessageContentView, OutputItem, ResponsesInput, ResponsesInputView,
};
#[allow(unused_imports)]
use crate::json::JsonView;
#[allow(unused_imports)]
use crate::payload::{
    RequestPayload, RequestPayloadView, ResponsePayload, ResponsePayloadView, ResponseUsage,
    UpstreamRequest, UpstreamRequestView, UpstreamTool,
};
#[allow(unused_imports)]
use crate::tools::{AllowedToolView, ToolChoice, ToolChoiceMode, ToolChoiceView};
#[allow(unused_imports)]
use crate::wire::{FromJson, ToJson};

verus! {

/// A number that tells apart the names that are written here.
#[verifier::opaque]
spec fn mark(name: Seq<char>) -> int {
    1000 * name.len() + name[0] as int + 3 * (name.last() as int) + 11 * (name[(name.len() as int)
        / 2] as int)
}

/// The names of what an upstream server is sent are told apart.
proof fn upstream_keys_differ()
    ensures
        mark("model"@) == 6533,
        mark("input"@) == 6685,
        mark("stream"@) == 7553,
        mark("instructions"@) == 13539,
        mark("tools"@) == 6682,
        mark("tool_choice"@) == 12508,
        mark("include"@) == 8596,
        mark("temperature"@) == 12673,
        mark("top_p"@) == 6684,
        mark("max_output_tokens"@) == 18741,
        mark("truncation"@) == 11513,
        mark("metadata"@) == 9500,
        mark("parallel_tool_calls"@) == 20733,
        mark("cache_salt"@) == 11492,
{
    reveal(mark);
    reveal_strlit("model");
    reveal_strlit("input");
    reveal_strlit("stream");
    reveal_strlit("instructions");
    reveal_strlit("tools");
    reveal_strlit("tool_choice");
    reveal_strlit("include");
    reveal_strlit("temperature");
    reveal_strlit("top_p");
    reveal_strlit("max_output_tokens");
    reveal_strlit("truncation");
    reveal_strlit("metadata");
    reveal_strlit("parallel_tool_calls");
    reveal_strlit("cache_salt");
    assert("model"@.len() == 5 && "model"@[2] == 'd');
    assert("input"@.len() == 5 && "input"@[2] == 'p');
    assert("stream"@.len() == 6 && "stream"@[3] == 'e');
    assert("instructions"@.len() == 12 && "instructions"@[6] == 'c');
    assert("tools"@.len() == 5 && "tools"@[2] == 'o');
    assert("tool_choice"@.len() == 11 && "tool_choice"@[5] == 'c');
    assert("include"@.len() == 7 && "include"@[3] == 'l');
    assert("temperature"@.len() == 11 && "temperature"@[5] == 'r');
    assert("top_p"@.len() == 5 && "top_p"@[2] == 'p');
    assert("max_output_tokens"@.len() == 17 && "max_output_tokens"@[8] == 'u');
    assert("truncation"@.len() == 10 && "truncation"@[5] == 'a');
    assert("metadata"@.len() == 8 && "metadata"@[4] == 'd');
    assert("parallel_tool_calls"@.len() == 19 && "parallel_tool_calls"@[9] == 't');
    assert("cache_salt"@.len() == 10 && "cache_salt"@[5] == '_');
}

/// The names of what a response says are told apart.
proof fn response_keys_differ()
    ensures
        mark("id"@) == 3505,
        mark("object"@) == 7570,
        mark("created_at"@) == 11558,
        mark("model"@) == 6533,
        mark("status"@) == 7736,
        mark("output"@) == 7691,
        mark("usage"@) == 6487,
        mark("incomplete_details"@) == 19561,
        mark("error"@) == 6697,
        mark("previous_response_id"@) == 21523,
        mark("conversation_id"@) == 16466,
        mark("instructions"@) == 13539,
        mark("type"@) == 5651,
        mark("response"@) == 9638,
{
    reveal(mark);
    reveal_strlit("id");
    reveal_strlit("object");
    reveal_strlit("created_at");
    reveal_strlit("model");
    reveal_strlit("status");
    reveal_strlit("output");
    reveal_strlit("usage");
    reveal_strlit("incomplete_details");
    reveal_strlit("error");
    reveal_strlit("previous_response_id");
    reveal_strlit("conversation_id");
    reveal_strlit("instructions");
    reveal_strlit("type");
    reveal_strlit("response");
    assert("id"@.len() == 2 && "id"@[1] == 'd');
    assert("object"@.len() == 6 && "object"@[3] == 'e');
    assert("created_at"@.len() == 10 && "created_at"@[5] == 'e');
    assert("model"@.len() == 5 && "model"@[2] == 'd');
    assert("status"@.len() == 6 && "status"@[3] == 't');
    assert("output"@.len() == 6 && "output"@[3] == 'p');
    assert("usage"@.len() == 5 && "usage"@[2] == 'a');
    assert("incomplete_details"@.len() == 18 && "incomplete_details"@[9] == 'e');
    assert("error"@.len() == 5 && "error"@[2] == 'r');
    assert("previous_response_id"@.len() == 20 && "previous_response_id"@[10] == 'e');
    assert("conversation_id"@.len() == 15 && "conversation_id"@[7] == 'a');
    assert("instructions"@.len() == 12 && "instructions"@[6] == 'c');
    assert("type"@.len() == 4 && "type"@[2] == 'p');
    assert("response"@.len() == 8 && "response"@[4] == 'o');
}

/// The names of what an item says are told apart.
proof fn item_keys_differ()
    ensures
        mark("type"@) == 5651,
        mark("id"@) == 3505,
        mark("call_id"@) == 8587,
        mark("name"@) == 5612,
        mark("namespace"@) == 10678,
        mark("arguments"@) == 10641,
        mark("status"@) == 7736,
        mark("output"@) == 7691,
        mark("role"@) == 5605,
        mark("content"@) == 8723,
        mark("tools"@) == 6682,
        mark("text"@) == 5784,
        mark("image_url"@) == 10540,
        mark("detail"@) == 7491,
        mark("execution"@) == 10718,
{
    reveal(mark);
    reveal_strlit("type");
    reveal_strlit("id");
    reveal_strlit("call_id");
    reveal_strlit("name");
    reveal_strlit("namespace");
    reveal_strlit("arguments");
    reveal_strlit("status");
    reveal_strlit("output");
    reveal_strlit("role");
    reveal_strlit("content");
    reveal_strlit("tools");
    reveal_strlit("text");
    reveal_strlit("image_url");
    reveal_strlit("detail");
    reveal_strlit("execution");
    assert("type"@.len() == 4 && "type"@[2] == 'p');
    assert("id"@.len() == 2 && "id"@[1] == 'd');
    assert("call_id"@.len() == 7 && "call_id"@[3] == 'l');
    assert("name"@.len() == 4 && "name"@[2] == 'm');
    assert("namespace"@.len() == 9 && "namespace"@[4] == 's');
    assert("arguments"@.len() == 9 && "arguments"@[4] == 'm');
    assert("status"@.len() == 6 && "status"@[3] == 't');
    assert("output"@.len() == 6 && "output"@[3] == 'p');
    assert("role"@.len() == 4 && "role"@[2] == 'l');
    assert("content"@.len() == 7 && "content"@[3] == 't');
    assert("tools"@.len() == 5 && "tools"@[2] == 'o');
    assert("text"@.len() == 4 && "text"@[2] == 'x');
    assert("image_url"@.len() == 9 && "image_url"@[4] == 'e');
    assert("detail"@.len() == 6 && "detail"@[3] == 'a');
    assert("execution"@.len() == 9 && "execution"@[4] == 'u');
}

/// The names of a usage's counts are told apart.
proof fn usage_keys_differ()
    ensures
        mark("input_tokens"@) == 13726,
        mark("output_tokens"@) == 14501,
        mark("total_tokens"@) == 13737,
        mark("input_tokens_details"@) == 21660,
        mark("output_tokens_details"@) == 22567,
{
    reveal(mark);
    reveal_strlit("input_tokens");
    reveal_strlit("output_tokens");
    reveal_strlit("total_tokens");
    reveal_strlit("input_tokens_details");
    reveal_strlit("output_tokens_details");
    assert("input_tokens"@.len() == 12 && "input_tokens"@[6] == 't');
    assert("output_tokens"@.len() == 13 && "output_tokens"@[6] == '_');
    assert("total_tokens"@.len() == 12 && "total_tokens"@[6] == 't');
    assert("input_tokens_details"@.len() == 20 && "input_tokens_details"@[10] == 'n');
    assert("output_tokens_details"@.len() == 21 && "output_tokens_details"@[10] == 'e');
}

/// The kinds of items and of parts are told apart.
proof fn kinds_differ()
    ensures
        mark("message"@) == 8677,
        mark("function_call"@) == 14647,
        mark("function_call_output"@) == 21517,
        mark("custom_tool_call"@) == 17644,
        mark("custom_tool_call_output"@) == 24492,
        mark("tool_search_call"@) == 17694,
        mark("tool_search_output"@) == 19553,
        mark("reasoning"@) == 10644,
        mark("mcp_list_tools"@) == 15730,
        mark("compaction"@) == 11518,
        mark("compaction_trigger"@) == 19651,
        mark("unknown"@) == 8657,
        mark("input_text"@) == 11498,
        mark("output_text"@) == 12735,
        mark("reasoning_text"@) == 15672,
        mark("input_image"@) == 12453,
{
    reveal(mark);
    reveal_strlit("message");
    reveal_strlit("function_call");
    reveal_strlit("function_call_output");
    reveal_strlit("custom_tool_call");
    reveal_strlit("custom_tool_call_output");
    reveal_strlit("tool_search_call");
    reveal_strlit("tool_search_output");
    reveal_strlit("reasoning");
    reveal_strlit("mcp_list_tools");
    reveal_strlit("compaction");
    reveal_strlit("compaction_trigger");
    reveal_strlit("unknown");
    reveal_strlit("input_text");
    reveal_strlit("output_text");
    reveal_strlit("reasoning_text");
    reveal_strlit("input_image");
    assert("message"@.len() == 7 && "message"@[3] == 's');
    assert("function_call"@.len() == 13 && "function_call"@[6] == 'o');
    assert("function_call_output"@.len() == 20 && "function_call_output"@[10] == 'a');
    assert("custom_tool_call"@.len() == 16 && "custom_tool_call"@[8] == 'o');
    assert("custom_tool_call_output"@.len() == 23 && "custom_tool_call_output"@[11] == '_');
    assert("tool_search_call"@.len() == 16 && "tool_search_call"@[8] == 'r');
    assert("tool_search_output"@.len() == 18 && "tool_search_output"@[9] == 'c');
    assert("reasoning"@.len() == 9 && "reasoning"@[4] == 'o');
    assert("mcp_list_tools"@.len() == 14 && "mcp_list_tools"@[7] == 't');
    assert("compaction"@.len() == 10 && "compaction"@[5] == 'c');
    assert("compaction_trigger"@.len() == 18 && "compaction_trigger"@[9] == 'n');
    assert("unknown"@.len() == 7 && "unknown"@[3] == 'n');
    assert("input_text"@.len() == 10 && "input_text"@[5] == '_');
    assert("output_text"@.len() == 11 && "output_text"@[5] == 't');
    assert("reasoning_text"@.len() == 14 && "reasoning_text"@[7] == 'n');
    assert("input_image"@.len() == 11 && "input_image"@[5] == '_');
}

/// The words for choices are told apart.
proof fn choices_differ()
    ensures
        mark("auto"@) == 5706,
        mark("none"@) == 5623,
        mark("required"@) == 9569,
        mark("function"@) == 9708,
        mark("custom"@) == 7702,
        mark("allowed_tools"@) == 14542,
{
    reveal(mark);
    reveal_strlit("auto");
    reveal_strlit("none");
    reveal_strlit("required");
    reveal_strlit("function");
    reveal_strlit("custom");
    reveal_strlit("allowed_tools");
    assert("auto"@.len() == 4 && "auto"@[2] == 't');
    assert("none"@.len() == 4 && "none"@[2] == 'n');
    assert("required"@.len() == 8 && "required"@[4] == 'i');
    assert("function"@.len() == 8 && "function"@[4] == 't');
    assert("custom"@.len() == 6 && "custom"@[3] == 't');
    assert("allowed_tools"@.len() == 13 && "allowed_tools"@[6] == 'd');
}

/// Whether a field is a value, where there is one, and is left out where there is none.
pub open spec fn is_field(
    fields: Map<Seq<char>, JsonView>,
    key: Seq<char>,
    value: Option<JsonView>,
) -> bool {
    match value {
        Some(v) => fields.contains_key(key) && fields[key] == v,
        None => !fields.contains_key(key),
    }
}

/// A text that may be absent, as a value.
pub open spec fn as_text(text: Option<Seq<char>>) -> Option<JsonView> {
    match text {
        Some(t) => Some(JsonView::Text(t)),
        None => None,
    }
}

/// A number that may be absent, as a value.
pub open spec fn as_number(number: Option<Seq<char>>) -> Option<JsonView> {
    match number {
        Some(n) => Some(JsonView::Number(n)),
        None => None,
    }
}

/// An upstream server is sent the model, the input and whether to stream, and each setting that
/// the request makes, as it makes it; a setting that it does not make is left out.
pub proof fn requests_are_sent_whole(r: UpstreamRequestView)
    ensures
        ({
            let json = <UpstreamRequest as ToJson>::json_of(r);
            let fields = json->Object_0;
            &&& json is Object
            &&& is_field(fields, "model"@, Some(JsonView::Text(r.model)))
            &&& is_field(fields, "stream"@, Some(JsonView::Bool(r.stream)))
            &&& fields.contains_key("input"@)
            &&& r.input is Text ==> fields["input"@] == JsonView::Text(r.input->Text_0)
            &&& r.input is Items ==> fields["input"@] is Array
                && fields["input"@]->Array_0.len() == r.input->Items_0.len() && forall|i: int|
                0 <= i < r.input->Items_0.len() ==> (#[trigger] fields["input"@]->Array_0[i])
                    == <InputItem as ToJson>::json_of(r.input->Items_0[i])
            &&& is_field(fields, "instructions"@, as_text(r.instructions))
            &&& is_field(fields, "truncation"@, as_text(r.truncation))
            &&& is_field(fields, "temperature"@, as_number(r.temperature))
            &&& is_field(fields, "top_p"@, as_number(r.top_p))
            &&& is_field(fields, "metadata"@, r.metadata)
            &&& r.tools is None ==> !fields.contains_key("tools"@)
            &&& r.tools is Some ==> fields.contains_key("tools"@) && fields["tools"@] is Array
                && fields["tools"@]->Array_0.len() == r.tools->0.len() && forall|i: int|
                0 <= i < r.tools->0.len() ==> (#[trigger] fields["tools"@]->Array_0[i])
                    == <UpstreamTool as ToJson>::json_of(r.tools->0[i])
            &&& r.include_fields is Some ==> fields.contains_key("include"@)
                && fields["include"@] is Array && fields["include"@]->Array_0.len()
                == r.include_fields->0.len() && forall|i: int|
                0 <= i < r.include_fields->0.len() ==> (
                #[trigger] fields["include"@]->Array_0[i]) == JsonView::Text(
                    r.include_fields->0[i],
                )
            &&& r.max_output_tokens is Some ==> crate::events_laws::counts(
                fields,
                "max_output_tokens"@,
                r.max_output_tokens->0,
            )
            &&& r.max_output_tokens is None ==> !fields.contains_key("max_output_tokens"@)
            &&& r.parallel_tool_calls is Some ==> is_field(
                fields,
                "parallel_tool_calls"@,
                Some(JsonView::Bool(r.parallel_tool_calls->0)),
            )
            &&& r.cache_salt is Some ==> is_field(
                fields,
                "cache_salt"@,
                Some(JsonView::Text(r.cache_salt->0)),
            )
            &&& r.tool_choice is None ==> !fields.contains_key("tool_choice"@)
            &&& r.tool_choice is Some && !(r.tool_choice->0 is Auto) ==> fields.contains_key(
                "tool_choice"@,
            )
        }),
{
    upstream_keys_differ();
}

/// The choice that an upstream server is sent is the one that was made, with custom tools as the
/// functions that stand for them; the default is not sent.
pub proof fn choices_are_sent(name: Seq<char>, mode: ToolChoiceMode, tools: Seq<AllowedToolView>)
    ensures
        crate::wire_payload::written_choice(None) is None,
        crate::wire_payload::written_choice(Some(ToolChoiceView::Auto)) is None,
        crate::wire_payload::written_choice(Some(ToolChoiceView::Never)) == Some(
            JsonView::Text("none"@),
        ),
        crate::wire_payload::written_choice(Some(ToolChoiceView::Required)) == Some(
            JsonView::Text("required"@),
        ),
        ({
            let custom = crate::wire_payload::written_choice(
                Some(ToolChoiceView::Custom { name }),
            );
            let function = crate::wire_payload::written_choice(
                Some(ToolChoiceView::Function { namespace: None, name }),
            );
            &&& custom == function
            &&& custom is Some && custom->0 is Object
            &&& crate::accumulator_laws::says(custom->0->Object_0, "type"@, "function"@)
            &&& crate::accumulator_laws::says(custom->0->Object_0, "name"@, name)
            &&& !custom->0->Object_0.contains_key("namespace"@)
        }),
        ({
            let allowed = crate::wire_payload::upstream_choice(
                ToolChoiceView::AllowedTools { mode, tools },
            );
            &&& allowed is AllowedTools
            &&& allowed->mode == mode
            &&& allowed->tools.len() == tools.len()
            &&& forall|i: int|
                0 <= i < tools.len() ==> (#[trigger] allowed->tools[i]).name == tools[i].name
            &&& forall|i: int|
                0 <= i < tools.len() ==> (#[trigger] allowed->tools[i]).type_ == (
                if tools[i].type_ == "custom"@ {
                    "function"@
                } else {
                    tools[i].type_
                })
        }),
{
    item_keys_differ();
}

/// The words for the simple choices are read as what they say, and no other word is one.
pub proof fn choices_are_read(word: Seq<char>, fields: Map<Seq<char>, JsonView>, name: Seq<char>)
    ensures
        <ToolChoice as FromJson>::of_json(JsonView::Text("auto"@)) == Some(ToolChoiceView::Auto),
        <ToolChoice as FromJson>::of_json(JsonView::Text("none"@)) == Some(ToolChoiceView::Never),
        <ToolChoice as FromJson>::of_json(JsonView::Text("required"@)) == Some(
            ToolChoiceView::Required,
        ),
        word != "auto"@ && word != "none"@ && word != "required"@
            ==> <ToolChoice as FromJson>::of_json(JsonView::Text(word)) is None,
        crate::accumulator_laws::says(fields, "type"@, "function"@)
            && crate::accumulator_laws::says(fields, "name"@, name) && !fields.contains_key(
            "namespace"@,
        ) ==> <ToolChoice as FromJson>::of_json(JsonView::Object(fields)) == Some(
            ToolChoiceView::Function { namespace: None, name },
        ),
        forall|namespace: Seq<char>|
            #![trigger crate::accumulator_laws::says(fields, "namespace"@, namespace)]
            crate::accumulator_laws::says(fields, "type"@, "function"@)
                && crate::accumulator_laws::says(fields, "name"@, name)
                && crate::accumulator_laws::says(fields, "namespace"@, namespace)
                ==> <ToolChoice as FromJson>::of_json(JsonView::Object(fields)) == Some(
                ToolChoiceView::Function { namespace: Some(namespace), name },
            ),
        crate::accumulator_laws::says(fields, "type"@, "custom"@) && crate::accumulator_laws::says(
            fields,
            "name"@,
            name,
        ) ==> <ToolChoice as FromJson>::of_json(JsonView::Object(fields)) == Some(
            ToolChoiceView::Custom { name },
        ),
        !fields.contains_key("type"@) ==> <ToolChoice as FromJson>::of_json(
            JsonView::Object(fields),
        ) == Some(ToolChoiceView::Other(JsonView::Object(fields))),
{
    choices_differ();
}

/// Whether a text that may be absent is what a field says; an absent field and null say none.
pub open spec fn is_read(
    fields: Map<Seq<char>, JsonView>,
    key: Seq<char>,
    text: Option<Seq<char>>,
) -> bool {
    match text {
        Some(t) => crate::accumulator_laws::says(fields, key, t),
        None => !fields.contains_key(key) || fields[key] is Null,
    }
}

/// What is read of a request is what its fields say, each under its own name. A request that
/// does not say whether to stream is not streamed, and one that does not say whether to store
/// is stored.
pub proof fn requests_are_read(fields: Map<Seq<char>, JsonView>, r: RequestPayloadView)
    requires
        <RequestPayload as FromJson>::of_json(JsonView::Object(fields)) == Some(r),
    ensures
        crate::accumulator_laws::says(fields, "model"@, r.model),
        fields.contains_key("input"@),
        fields["input"@] is Text ==> r.input == ResponsesInputView::Text(fields["input"@]->Text_0),
        fields["input"@] is Array ==> r.input is Items && r.input->Items_0.len()
            == fields["input"@]->Array_0.len(),
        is_read(fields, "instructions"@, r.instructions),
        is_read(fields, "previous_response_id"@, r.previous_response_id),
        is_read(fields, "conversation_id"@, r.conversation_id),
        is_read(fields, "truncation"@, r.truncation),
        is_read(fields, "cache_salt"@, r.cache_salt),
        !fields.contains_key("stream"@) ==> !r.stream,
        fields.contains_key("stream"@) ==> fields["stream"@] == JsonView::Bool(r.stream),
        !fields.contains_key("store"@) ==> r.store,
        fields.contains_key("store"@) ==> fields["store"@] == JsonView::Bool(r.store),
        !fields.contains_key("tools"@) ==> r.tools is None,
        fields.contains_key("tools"@) && fields["tools"@] is Array ==> r.tools is Some
            && r.tools->0.len() == fields["tools"@]->Array_0.len(),
        !fields.contains_key("tool_choice"@) ==> r.tool_choice is None,
        fields.contains_key("tool_choice"@) && !(fields["tool_choice"@] is Null)
            ==> <ToolChoice as FromJson>::of_json(fields["tool_choice"@]) == r.tool_choice,
        !fields.contains_key("temperature"@) ==> r.temperature is None,
        !fields.contains_key("top_p"@) ==> r.top_p is None,
        !fields.contains_key("max_output_tokens"@) ==> r.max_output_tokens is None,
        r.max_output_tokens is Some ==> r.max_output_tokens->0 <= u32::MAX
            && fields.contains_key("max_output_tokens"@),
        forall|n: u64|
            #![trigger crate::events_laws::counts(fields, "max_output_tokens"@, n)]
            crate::events_laws::counts(fields, "max_output_tokens"@, n) ==> r.max_output_tokens
                == Some(n),
        !fields.contains_key("metadata"@) ==> r.metadata is None,
        fields.contains_key("metadata"@) && !(fields["metadata"@] is Null) ==> r.metadata == Some(
            fields["metadata"@],
        ),
        !fields.contains_key("parallel_tool_calls"@) ==> r.parallel_tool_calls is None,
        fields.contains_key("parallel_tool_calls"@) && fields["parallel_tool_calls"@] is Bool
            ==> r.parallel_tool_calls == Some(fields["parallel_tool_calls"@]->Bool_0),
{
    assert forall|n: u64|
        #![trigger crate::events_laws::counts(fields, "max_output_tokens"@, n)]
        crate::events_laws::counts(
            fields,
            "max_output_tokens"@,
            n,
        ) implies r.max_output_tokens == Some(n) by {
        crate::events_laws::numbers_are_read_back(n);
    }
    if fields["input"@] is Array {
        let items = fields["input"@]->Array_0;
        lists_keep_their_length::<InputItem>(items, items.len() as int);
    }
    if fields.contains_key("tools"@) && fields["tools"@] is Array {
        let items = fields["tools"@]->Array_0;
        lists_keep_their_length::<crate::tools::ResponsesTool>(items, items.len() as int);
    }
}

proof fn lists_keep_their_length<T: FromJson>(items: Seq<JsonView>, n: int)
    requires
        0 <= n <= items.len(),
    ensures
        crate::wire::list_of::<T>(items, n) is Some ==> crate::wire::list_of::<T>(
            items,
            n,
        )->0.len() == n,
    decreases n,
{
    if n > 0 {
        lists_keep_their_length::<T>(items, n - 1);
    }
}

/// A request without a model or an input is none, and neither is one that asks for more tokens
/// than there can be.
pub proof fn incomplete_requests_are_refused(fields: Map<Seq<char>, JsonView>, n: u64)
    ensures
        !fields.contains_key("model"@) || !fields.contains_key("input"@)
            ==> <RequestPayload as FromJson>::of_json(JsonView::Object(fields)) is None,
        n > u32::MAX && crate::events_laws::counts(fields, "max_output_tokens"@, n)
            ==> <RequestPayload as FromJson>::of_json(JsonView::Object(fields)) is None,
{
    crate::events_laws::numbers_are_read_back(n);
}

/// Whether a value is a text, or null where there is none.
pub open spec fn is_text_or_null(value: JsonView, text: Option<Seq<char>>) -> bool {
    match text {
        Some(t) => value == JsonView::Text(t),
        None => value is Null,
    }
}

/// A response is written with everything that it holds, each under its own name.
pub proof fn responses_are_written_whole(r: ResponsePayloadView)
    ensures
        ({
            let json = <ResponsePayload as ToJson>::json_of(r);
            let fields = json->Object_0;
            &&& json is Object
            &&& crate::accumulator_laws::says(fields, "id"@, r.id)
            &&& crate::accumulator_laws::says(fields, "object"@, r.object)
            &&& crate::accumulator_laws::says(fields, "model"@, r.model)
            &&& crate::accumulator_laws::says(fields, "status"@, r.status)
            &&& fields.contains_key("created_at"@) && (r.created_at >= 0
                ==> fields["created_at"@] == JsonView::Number(
                crate::text::decimal_text(r.created_at as nat),
            ))
            &&& fields.contains_key("output"@) && fields["output"@] is Array
            &&& fields["output"@]->Array_0.len() == r.output.len()
            &&& forall|i: int|
                0 <= i < r.output.len() ==> (#[trigger] fields["output"@]->Array_0[i])
                    == <OutputItem as ToJson>::json_of(r.output[i])
            &&& fields.contains_key("usage"@) && (r.usage is None ==> fields["usage"@] is Null)
            &&& r.usage is Some ==> crate::events::usage_of(Some(fields["usage"@])) == r.usage
            &&& fields.contains_key("error"@) && (r.error is None ==> fields["error"@] is Null)
                && (r.error is Some ==> fields["error"@] == r.error->0)
            &&& fields.contains_key("incomplete_details"@) && (r.incomplete_details is None
                ==> fields["incomplete_details"@] is Null)
            &&& r.incomplete_details is Some ==> fields["incomplete_details"@] is Object
                && fields["incomplete_details"@]->Object_0.contains_key("reason"@)
                && is_text_or_null(
                fields["incomplete_details"@]->Object_0["reason"@],
                r.incomplete_details->0.reason,
            )
            &&& fields.contains_key("previous_response_id"@) && is_text_or_null(
                fields["previous_response_id"@],
                r.previous_response_id,
            )
            &&& fields.contains_key("conversation_id"@) && is_text_or_null(
                fields["conversation_id"@],
                r.conversation_id,
            )
            &&& fields.contains_key("instructions"@) && is_text_or_null(
                fields["instructions"@],
                r.instructions,
            )
        }),
{
    response_keys_differ();
    if r.usage is Some {
        usages_are_read_back(r.usage->0);
    }
}

/// The counts of a usage that was written are read back, each as what it was.
pub proof fn usages_are_read_back(usage: ResponseUsage)
    ensures
        crate::events::usage_of(Some(crate::wire_payload::usage_json(usage))) == Some(usage),
{
    usage_keys_differ();
    let fields = crate::wire_payload::usage_json(usage)->Object_0;
    crate::events_laws::numbers_are_read_back(usage.input_tokens);
    crate::events_laws::numbers_are_read_back(usage.output_tokens);
    crate::events_laws::numbers_are_read_back(usage.total_tokens);
    crate::events_laws::numbers_are_read_back(usage.cached_tokens);
    crate::events_laws::numbers_are_read_back(usage.reasoning_tokens);
    assert(crate::events::u64_field(fields, "input_tokens"@) == Some(usage.input_tokens));
    assert(crate::events::u64_field(fields, "output_tokens"@) == Some(usage.output_tokens));
    assert(crate::events::u64_field(fields, "total_tokens"@) == Some(usage.total_tokens));
}

/// A stream is ended by the event that its status stands for, and carries the response in it.
pub proof fn streams_are_ended_as_they_are(status: Seq<char>, response: ResponsePayloadView)
    ensures
        status == "completed"@ ==> crate::wire_payload::terminal_event(status)
            == "response.completed"@,
        status == "incomplete"@ ==> crate::wire_payload::terminal_event(status)
            == "response.incomplete"@,
        status == "failed"@ || status == "error"@ ==> crate::wire_payload::terminal_event(status)
            == "response.failed"@,
        status == "in_progress"@ ==> crate::wire_payload::terminal_event(status)
            == "response.in_progress"@,
        ({
            let event = crate::wire_payload::response_event(status, response);
            &&& event is Object
            &&& crate::accumulator_laws::says(event->Object_0, "type"@, status)
            &&& event->Object_0.contains_key("response"@) && event->Object_0["response"@]
                == <ResponsePayload as ToJson>::json_of(response)
        }),
{
    response_keys_differ();
    crate::accumulator_laws::statuses_differ();
}

/// An item of the history is written with what it says, each under its own name, and is the kind
/// of item that it says.
pub proof fn items_are_written_whole(item: InputItemView)
    ensures
        ({
            let fields = crate::wire_payload::input_item_fields(item);
            &&& item is Message ==> {
                &&& crate::accumulator_laws::says(fields, "type"@, "message"@)
                &&& crate::accumulator_laws::says(fields, "role"@, item->Message_0.role)
                &&& fields.contains_key("content"@)
                &&& item->Message_0.content is Text ==> fields["content"@] == JsonView::Text(
                    item->Message_0.content->Text_0,
                )
                &&& item->Message_0.content is Parts ==> fields["content"@] is Array
                    && fields["content"@]->Array_0.len() == item->Message_0.content->Parts_0.len()
            }
            &&& item is FunctionCall ==> {
                let c = item->FunctionCall_0;
                &&& crate::accumulator_laws::says(fields, "type"@, "function_call"@)
                &&& crate::accumulator_laws::says(fields, "call_id"@, c.call_id)
                &&& crate::accumulator_laws::says(fields, "name"@, c.name)
                &&& crate::accumulator_laws::says(fields, "arguments"@, c.arguments)
                &&& is_field(fields, "id"@, as_text(c.id))
                &&& is_field(fields, "namespace"@, as_text(c.namespace))
            }
            &&& item is FunctionCallOutput ==> {
                &&& crate::accumulator_laws::says(fields, "type"@, "function_call_output"@)
                &&& crate::accumulator_laws::says(
                    fields,
                    "call_id"@,
                    item->FunctionCallOutput_0.call_id,
                )
                &&& crate::accumulator_laws::says(
                    fields,
                    "output"@,
                    item->FunctionCallOutput_0.output,
                )
            }
            &&& item is CustomToolCallOutput ==> {
                &&& crate::accumulator_laws::says(fields, "type"@, "custom_tool_call_output"@)
                &&& crate::accumulator_laws::says(
                    fields,
                    "call_id"@,
                    item->CustomToolCallOutput_0.call_id,
                )
                &&& is_field(fields, "name"@, as_text(item->CustomToolCallOutput_0.name))
                &&& is_field(fields, "output"@, Some(item->CustomToolCallOutput_0.output))
            }
            &&& item is ToolSearchCall ==> {
                &&& crate::accumulator_laws::says(fields, "type"@, "tool_search_call"@)
                &&& crate::accumulator_laws::says(fields, "id"@, item->ToolSearchCall_0.id)
                &&& crate::accumulator_laws::says(
                    fields,
                    "call_id"@,
                    item->ToolSearchCall_0.call_id,
                )
                &&& is_field(
                    fields,
                    "arguments"@,
                    Some(JsonView::Object(item->ToolSearchCall_0.arguments)),
                )
            }
            &&& item is ToolSearchOutput ==> {
                &&& crate::accumulator_laws::says(fields, "type"@, "tool_search_output"@)
                &&& crate::accumulator_laws::says(
                    fields,
                    "call_id"@,
                    item->ToolSearchOutput_0.call_id,
                )
                &&& fields.contains_key("tools"@) && fields["tools"@] is Array
                    && fields["tools"@]->Array_0.len() == item->ToolSearchOutput_0.tools.len()
            }
        }),
{
    item_keys_differ();
}

/// An item of the history is read as the kind that it says, with what it says. One that says no
/// kind is a message, and one of a kind that is not known is kept as such.
pub proof fn items_are_read(
    fields: Map<Seq<char>, JsonView>,
    call_id: Seq<char>,
    name: Seq<char>,
    text: Seq<char>,
    kind: Seq<char>,
)
    ensures
        ({
            let item = <InputItem as FromJson>::of_json(JsonView::Object(fields));
            &&& (crate::accumulator_laws::says(fields, "type"@, "message"@)
                || !fields.contains_key("type"@)) && crate::accumulator_laws::says(
                fields,
                "role"@,
                name,
            ) && crate::accumulator_laws::says(fields, "content"@, text) ==> item is Some
                && item->0 is Message && item->0->Message_0.role == name
                && item->0->Message_0.content == InputMessageContentView::Text(text)
            &&& crate::accumulator_laws::says(fields, "type"@, "function_call"@)
                && crate::accumulator_laws::says(fields, "call_id"@, call_id)
                && crate::accumulator_laws::says(fields, "name"@, name)
                && crate::accumulator_laws::says(fields, "arguments"@, text)
                && !fields.contains_key("id"@) && !fields.contains_key("namespace"@)
                && !fields.contains_key("status"@) ==> item is Some && item->0 is FunctionCall
                && item->0->FunctionCall_0.call_id == call_id && item->0->FunctionCall_0.name
                == name && item->0->FunctionCall_0.arguments == text
                && item->0->FunctionCall_0.id is None && item->0->FunctionCall_0.namespace
                is None
            &&& crate::accumulator_laws::says(fields, "type"@, "function_call_output"@)
                && crate::accumulator_laws::says(fields, "call_id"@, call_id)
                && crate::accumulator_laws::says(fields, "output"@, text) ==> item is Some
                && item->0 is FunctionCallOutput && item->0->FunctionCallOutput_0.call_id
                == call_id && item->0->FunctionCallOutput_0.output == text
            &&& crate::accumulator_laws::says(fields, "type"@, "custom_tool_call_output"@)
                && crate::accumulator_laws::says(fields, "call_id"@, call_id)
                && fields.contains_key("output"@) && !fields.contains_key("name"@) ==> item
                is Some && item->0 is CustomToolCallOutput
                && item->0->CustomToolCallOutput_0.call_id == call_id
                && item->0->CustomToolCallOutput_0.output == fields["output"@]
            &&& crate::accumulator_laws::says(fields, "type"@, "compaction_trigger"@) ==> item
                == Some(InputItemView::CompactionTrigger)
            &&& crate::accumulator_laws::says(fields, "type"@, "unknown"@) ==> item == Some(
                InputItemView::Unknown,
            )
            &&& crate::accumulator_laws::says(fields, "type"@, "function_call"@)
                && !fields.contains_key("call_id"@) ==> item is None
            &&& crate::accumulator_laws::says(fields, "type"@, "function_call_output"@)
                && !fields.contains_key("call_id"@) ==> item is None
        }),
{
    kinds_differ();
}

/// The parts of a message are read as the kinds that they say, with their text.
pub proof fn parts_are_read(fields: Map<Seq<char>, JsonView>, text: Seq<char>)
    requires
        crate::accumulator_laws::says(fields, "text"@, text),
    ensures
        ({
            let part = <InputContent as FromJson>::of_json(JsonView::Object(fields));
            &&& crate::accumulator_laws::says(fields, "type"@, "input_text"@) ==> part is Some
                && part->0 is InputText && part->0->InputText_0.text == text
            &&& crate::accumulator_laws::says(fields, "type"@, "output_text"@) ==> part is Some
                && part->0 is OutputText && part->0->OutputText_0.text == text
            &&& crate::accumulator_laws::says(fields, "type"@, "reasoning_text"@) ==> part is Some
                && part->0 is ReasoningText && part->0->ReasoningText_0.text == text
        }),
        <InputMessageContent as FromJson>::of_json(JsonView::Text(text)) == Some(
            InputMessageContentView::Text(text),
        ),
        <ResponsesInput as FromJson>::of_json(JsonView::Text(text)) == Some(
            ResponsesInputView::Text(text),
        ),
{
    kinds_differ();
}

} // verus!
