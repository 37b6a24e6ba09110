//! What output items say when they are written, and what custom tools become.
use vstd::prelude::*;

#[allow(unused_imports)]
use crate::items::{
    McpCallErrorView, McpCallStatus, MessageStatus, OutputItem, OutputItemView, OutputTextContent,
    OutputTextContentView, ReasoningTextContent, ReasoningTextContentView, WebSearchCallStatus,
};
#[allow(unused_imports)]
use crate::json::JsonView;
#[allow(unused_imports)]
use crate::tools::{CustomToolParamView, ResponsesTool, ResponsesToolView, ToolSearchStatus};
#[allow(unused_imports)]
use crate::wire::{FromJson, ToJson};

verus! {

/// A number that tells apart the names that are written here.
#[verifier::opaque]
spec fn mark(name: Seq<char>) -> int {
    1000 * name.len() + name[0] as int + 3 * (name.last() as int) + 11 * (name[(name.len() as int)
        / 2] as int)
}

/// The names of what an item says are told apart.
proof fn item_keys_differ()
    ensures
        mark("type"@) == 5651,
        mark("id"@) == 3505,
        mark("role"@) == 5605,
        mark("status"@) == 7736,
        mark("content"@) == 8723,
        mark("summary"@) == 8677,
        mark("encrypted_content"@) == 18549,
        mark("call_id"@) == 8587,
        mark("name"@) == 5612,
        mark("namespace"@) == 10678,
        mark("arguments"@) == 10641,
        mark("input"@) == 6685,
        mark("action"@) == 7582,
        mark("server_label"@) == 13484,
        mark("approval_request_id"@) == 20651,
        mark("output"@) == 7691,
        mark("error"@) == 6697,
        mark("tools"@) == 6682,
        mark("server"@) == 7755,
        mark("tool"@) == 5661,
        mark("result"@) == 7749,
        mark("execution"@) == 10718,
        mark("text"@) == 5784,
        mark("annotations"@) == 12509,
{
    reveal(mark);
    reveal_strlit("type");
    reveal_strlit("id");
    reveal_strlit("role");
    reveal_strlit("status");
    reveal_strlit("content");
    reveal_strlit("summary");
    reveal_strlit("encrypted_content");
    reveal_strlit("call_id");
    reveal_strlit("name");
    reveal_strlit("namespace");
    reveal_strlit("arguments");
    reveal_strlit("input");
    reveal_strlit("action");
    reveal_strlit("server_label");
    reveal_strlit("approval_request_id");
    reveal_strlit("output");
    reveal_strlit("error");
    reveal_strlit("tools");
    reveal_strlit("server");
    reveal_strlit("tool");
    reveal_strlit("result");
    reveal_strlit("execution");
    reveal_strlit("text");
    reveal_strlit("annotations");
    assert("type"@.len() == 4 && "type"@[2] == 'p');
    assert("id"@.len() == 2 && "id"@[1] == 'd');
    assert("role"@.len() == 4 && "role"@[2] == 'l');
    assert("status"@.len() == 6 && "status"@[3] == 't');
    assert("content"@.len() == 7 && "content"@[3] == 't');
    assert("summary"@.len() == 7 && "summary"@[3] == 'm');
    assert("encrypted_content"@.len() == 17 && "encrypted_content"@[8] == 'd');
    assert("call_id"@.len() == 7 && "call_id"@[3] == 'l');
    assert("name"@.len() == 4 && "name"@[2] == 'm');
    assert("namespace"@.len() == 9 && "namespace"@[4] == 's');
    assert("arguments"@.len() == 9 && "arguments"@[4] == 'm');
    assert("input"@.len() == 5 && "input"@[2] == 'p');
    assert("action"@.len() == 6 && "action"@[3] == 'i');
    assert("server_label"@.len() == 12 && "server_label"@[6] == '_');
    assert("approval_request_id"@.len() == 19 && "approval_request_id"@[9] == 'r');
    assert("output"@.len() == 6 && "output"@[3] == 'p');
    assert("error"@.len() == 5 && "error"@[2] == 'r');
    assert("tools"@.len() == 5 && "tools"@[2] == 'o');
    assert("server"@.len() == 6 && "server"@[3] == 'v');
    assert("tool"@.len() == 4 && "tool"@[2] == 'o');
    assert("result"@.len() == 6 && "result"@[3] == 'u');
    assert("execution"@.len() == 9 && "execution"@[4] == 'u');
    assert("text"@.len() == 4 && "text"@[2] == 'x');
    assert("annotations"@.len() == 11 && "annotations"@[5] == 'a');
}

/// The word for how far a message or a call is.
pub open spec fn is_status_word(word: Seq<char>, status: MessageStatus) -> bool {
    match status {
        MessageStatus::InProgress => word == "in_progress"@,
        MessageStatus::Completed => word == "completed"@,
        MessageStatus::Incomplete => word == "incomplete"@,
    }
}

/// Whether fields say how far a message or a call is.
pub open spec fn says_status(fields: Map<Seq<char>, JsonView>, status: MessageStatus) -> bool {
    fields.contains_key("status"@) && fields["status"@] is Text && is_status_word(
        fields["status"@]->Text_0,
        status,
    )
}

/// Every output item is written under its kind and its identity, and with everything that it
/// holds, each under its own name.
pub proof fn items_are_written_whole(item: OutputItemView)
    ensures
        ({
            let json = <OutputItem as ToJson>::json_of(item);
            let fields = json->Object_0;
            &&& json is Object
            &&& item is Message ==> {
                let x = item->Message_0;
                &&& crate::accumulator_laws::says(fields, "type"@, "message"@)
                &&& crate::accumulator_laws::says(fields, "id"@, x.id)
                &&& crate::accumulator_laws::says(fields, "role"@, x.role)
                &&& says_status(fields, x.status)
                &&& fields.contains_key("content"@) && fields["content"@] is Array
                &&& fields["content"@]->Array_0.len() == x.content.len()
                &&& forall|i: int|
                    0 <= i < x.content.len() ==> says_part(
                        #[trigger] fields["content"@]->Array_0[i],
                        "output_text"@,
                        x.content[i].text,
                    )
            }
            &&& item is Reasoning ==> {
                let x = item->Reasoning_0;
                &&& crate::accumulator_laws::says(fields, "type"@, "reasoning"@)
                &&& crate::accumulator_laws::says(fields, "id"@, x.id)
                &&& fields.contains_key("summary"@) && fields["summary"@] == JsonView::Array(
                    x.summary,
                )
                &&& fields.contains_key("content"@) && fields["content"@] is Array
                &&& fields["content"@]->Array_0.len() == x.content.len()
                &&& forall|i: int|
                    0 <= i < x.content.len() ==> says_part(
                        #[trigger] fields["content"@]->Array_0[i],
                        "reasoning_text"@,
                        x.content[i].text,
                    )
                &&& fields.contains_key("encrypted_content"@)
                    && crate::payload_laws::is_text_or_null(
                    fields["encrypted_content"@],
                    x.encrypted_content,
                )
            }
            &&& item is FunctionCall ==> {
                let x = item->FunctionCall_0;
                &&& crate::accumulator_laws::says(fields, "type"@, "function_call"@)
                &&& crate::accumulator_laws::says(fields, "id"@, x.id)
                &&& crate::accumulator_laws::says(fields, "call_id"@, x.call_id)
                &&& crate::accumulator_laws::says(fields, "name"@, x.name)
                &&& crate::accumulator_laws::says(fields, "arguments"@, x.arguments)
                &&& crate::payload_laws::is_field(
                    fields,
                    "namespace"@,
                    crate::payload_laws::as_text(x.namespace),
                )
                &&& says_status(fields, x.status)
            }
            &&& item is CustomToolCall ==> {
                let x = item->CustomToolCall_0;
                &&& crate::accumulator_laws::says(fields, "type"@, "custom_tool_call"@)
                &&& crate::accumulator_laws::says(fields, "id"@, x.id)
                &&& crate::accumulator_laws::says(fields, "call_id"@, x.call_id)
                &&& crate::accumulator_laws::says(fields, "name"@, x.name)
                &&& crate::accumulator_laws::says(fields, "input"@, x.input)
                &&& x.status is Some ==> says_status(fields, x.status->0)
                &&& x.status is None ==> !fields.contains_key("status"@)
            }
            &&& item is WebSearchCall ==> {
                let x = item->WebSearchCall_0;
                &&& crate::accumulator_laws::says(fields, "type"@, "web_search_call"@)
                &&& crate::accumulator_laws::says(fields, "id"@, x.id)
                &&& fields.contains_key("action"@) && fields["action"@] == JsonView::Object(
                    x.action.fields,
                )
                &&& x.status is InProgress ==> crate::accumulator_laws::says(
                    fields,
                    "status"@,
                    "in_progress"@,
                )
                &&& x.status is Completed ==> crate::accumulator_laws::says(
                    fields,
                    "status"@,
                    "completed"@,
                )
                &&& x.status is Failed ==> crate::accumulator_laws::says(
                    fields,
                    "status"@,
                    "failed"@,
                )
            }
            &&& item is McpCall ==> {
                let x = item->McpCall_0;
                &&& crate::accumulator_laws::says(fields, "type"@, "mcp_call"@)
                &&& crate::accumulator_laws::says(fields, "id"@, x.id)
                &&& crate::accumulator_laws::says(fields, "server_label"@, x.server_label)
                &&& crate::accumulator_laws::says(fields, "name"@, x.name)
                &&& crate::accumulator_laws::says(fields, "arguments"@, x.arguments)
                &&& fields.contains_key("output"@) && crate::payload_laws::is_text_or_null(
                    fields["output"@],
                    x.output,
                )
                &&& fields.contains_key("error"@)
                &&& x.error is None ==> fields["error"@] is Null
                &&& x.error is Some && x.error->0 is Message ==> fields["error"@]
                    == JsonView::Text(x.error->0->Message_0)
            }
            &&& item is McpListTools ==> {
                let x = item->McpListTools_0;
                &&& crate::accumulator_laws::says(fields, "type"@, "mcp_list_tools"@)
                &&& crate::accumulator_laws::says(fields, "id"@, x.id)
                &&& crate::accumulator_laws::says(fields, "server_label"@, x.server_label)
                &&& fields.contains_key("tools"@) && fields["tools"@] is Array
                    && fields["tools"@]->Array_0.len() == x.tools.len()
                &&& crate::payload_laws::is_field(
                    fields,
                    "error"@,
                    crate::payload_laws::as_text(x.error),
                )
            }
            &&& item is ToolSearchCall ==> {
                let x = item->ToolSearchCall_0;
                &&& crate::accumulator_laws::says(fields, "type"@, "tool_search_call"@)
                &&& crate::accumulator_laws::says(fields, "id"@, x.id)
                &&& crate::accumulator_laws::says(fields, "call_id"@, x.call_id)
                &&& fields.contains_key("arguments"@) && fields["arguments"@]
                    == JsonView::Object(x.arguments)
                &&& x.status is Completed ==> crate::accumulator_laws::says(
                    fields,
                    "status"@,
                    "completed"@,
                )
                &&& x.status is InProgress ==> crate::accumulator_laws::says(
                    fields,
                    "status"@,
                    "in_progress"@,
                )
            }
            &&& item is Compaction ==> {
                let x = item->Compaction_0;
                &&& crate::accumulator_laws::says(fields, "type"@, "compaction"@)
                &&& crate::payload_laws::is_field(
                    fields,
                    "id"@,
                    crate::payload_laws::as_text(x.id),
                )
                &&& crate::accumulator_laws::says(
                    fields,
                    "encrypted_content"@,
                    x.encrypted_content,
                )
            }
        }),
{
    item_keys_differ();
    if let OutputItemView::Message(x) = item {
        let fields = crate::wire_items::output_item_fields(item);
        assert forall|i: int| 0 <= i < x.content.len() implies says_part(
            #[trigger] fields["content"@]->Array_0[i],
            "output_text"@,
            x.content[i].text,
        ) by {
            assert(fields["content"@]->Array_0[i] == <OutputTextContent as ToJson>::json_of(
                x.content[i],
            ));
        }
    }
    if let OutputItemView::Reasoning(x) = item {
        let fields = crate::wire_items::output_item_fields(item);
        assert forall|i: int| 0 <= i < x.content.len() implies says_part(
            #[trigger] fields["content"@]->Array_0[i],
            "reasoning_text"@,
            x.content[i].text,
        ) by {
            assert(fields["content"@]->Array_0[i] == <ReasoningTextContent as ToJson>::json_of(
                x.content[i],
            ));
        }
    }
}

/// Whether a value is a part of a kind with a text.
pub open spec fn says_part(value: JsonView, kind: Seq<char>, text: Seq<char>) -> bool {
    value is Object && crate::accumulator_laws::says(value->Object_0, "type"@, kind)
        && crate::accumulator_laws::says(value->Object_0, "text"@, text)
}

/// A custom tool is shown to the model as a strict function of its own name that takes one
/// required text, the input, and nothing else.
pub proof fn custom_tools_take_one_text(param: CustomToolParamView)
    ensures
        ({
            let f = crate::custom::custom_function(param);
            let schema = f.parameters->0->Object_0;
            &&& f.name == param.name && f.type_ == "function"@ && f.strict == Some(true)
            &&& f.parameters is Some && f.parameters->0 is Object
            &&& crate::accumulator_laws::says(schema, "type"@, "object"@)
            &&& schema.contains_key("required"@) && schema["required"@] == JsonView::Array(
                seq![JsonView::Text("input"@)],
            )
            &&& schema.contains_key("additionalProperties"@) && schema["additionalProperties"@]
                == JsonView::Bool(false)
            &&& schema.contains_key("properties"@) && schema["properties"@] is Object
            &&& schema["properties"@]->Object_0.contains_key("input"@)
            &&& schema["properties"@]->Object_0["input"@] is Object
            &&& crate::accumulator_laws::says(
                schema["properties"@]->Object_0["input"@]->Object_0,
                "type"@,
                "string"@,
            )
        }),
{
    reveal_strlit("type");
    reveal_strlit("properties");
    reveal_strlit("required");
    reveal_strlit("additionalProperties");
    reveal_strlit("description");
    assert("type"@.len() == 4);
    assert("properties"@.len() == 10);
    assert("required"@.len() == 8);
    assert("additionalProperties"@.len() == 20);
    assert("description"@.len() == 11);
}

/// Whether a text is among the parts of another.
pub open spec fn is_a_part(parts: Seq<Seq<char>>, part: Seq<char>) -> bool {
    exists|i: int| 0 <= i < parts.len() && #[trigger] parts[i] == part
}

/// The model is told a custom tool's description first, then that it gives the raw input, and
/// then its format and whatever else was declared.
pub proof fn custom_tools_are_described(param: CustomToolParamView, description: Seq<char>)
    requires
        param.description == Some(description),
        crate::text_laws::is_tight(description),
    ensures
        ({
            let parts = crate::custom::description_fragments(param);
            &&& parts.len() >= 2
            &&& parts[0] == description
            &&& parts[1] == "Provide the raw tool input in the `input` string field."@
            &&& param.format is None && param.extra == Map::<Seq<char>, JsonView>::empty()
                ==> parts.len() == 2
            &&& param.format is Some ==> parts.len() >= 3 && parts[2]
                == crate::custom::format_text(param.format->0)
            &&& param.extra != Map::<Seq<char>, JsonView>::empty() ==> is_a_part(
                parts,
                "Additional custom tool declaration fields that must be respected:\n"@
                    + crate::json::json_text(JsonView::Object(param.extra)),
            )
        }),
{
    crate::text_laws::ends_are_trimmed(Seq::empty(), description, Seq::empty());
    assert(Seq::<char>::empty() + description + Seq::<char>::empty() =~= description);
    let parts = crate::custom::description_fragments(param);
    if param.extra != Map::<Seq<char>, JsonView>::empty() {
        assert(parts[parts.len() - 1]
            == "Additional custom tool declaration fields that must be respected:\n"@
            + crate::json::json_text(JsonView::Object(param.extra)));
    }
}

/// A grammar that is declared is told to the model whole, under its syntax; any other format as
/// the declaration that it is.
pub proof fn formats_are_told(
    format: Map<Seq<char>, JsonView>,
    syntax: Seq<char>,
    definition: Seq<char>,
)
    requires
        crate::text_laws::is_tight(definition),
    ensures
        crate::accumulator_laws::says(format, "type"@, "grammar"@) && crate::accumulator_laws::says(
            format,
            "syntax"@,
            syntax,
        ) && (syntax == "lark"@ || syntax == "regex"@) && crate::accumulator_laws::says(
            format,
            "definition"@,
            definition,
        ) ==> crate::custom::format_text(JsonView::Object(format))
            == "The string must match this "@ + syntax + " grammar exactly:\n"@ + definition,
        !crate::accumulator_laws::says(format, "type"@, "grammar"@) ==> crate::custom::format_text(
            JsonView::Object(format),
        ) == "The string must conform to this custom tool format declaration exactly:\n"@
            + crate::json::json_text(JsonView::Object(format)),
{
    crate::text_laws::ends_are_trimmed(Seq::empty(), definition, Seq::empty());
    assert(Seq::<char>::empty() + definition + Seq::<char>::empty() =~= definition);
}

/// A custom declaration is read with its name, its description and its format, and everything
/// else that it says is kept; one without a name is none.
pub proof fn custom_declarations_are_read(fields: Map<Seq<char>, JsonView>, name: Seq<char>)
    ensures
        ({
            let read = crate::custom::custom_param_of(JsonView::Object(fields));
            &&& !fields.contains_key("name"@) ==> read is None
            &&& crate::accumulator_laws::says(fields, "name"@, Seq::empty()) ==> read is None
            &&& crate::accumulator_laws::says(fields, "name"@, name) && name.len() > 0 && (
            !fields.contains_key("description"@) || fields["description"@] is Text) ==> {
                &&& read is Some
                &&& read->0.name == name
                &&& fields.contains_key("description"@) ==> read->0.description == Some(
                    fields["description"@]->Text_0,
                )
                &&& !fields.contains_key("description"@) ==> read->0.description is None
                &&& fields.contains_key("format"@) && !(fields["format"@] is Null)
                    ==> read->0.format == Some(fields["format"@])
                &&& !fields.contains_key("format"@) ==> read->0.format is None
                &&& forall|key: Seq<char>|
                    key != "name"@ && key != "description"@ && key != "format"@ ==> (
                    #[trigger] read->0.extra.contains_key(key)) == fields.contains_key(key) && (
                    fields.contains_key(key) ==> read->0.extra[key] == fields[key])
                &&& !read->0.extra.contains_key("name"@) && !read->0.extra.contains_key(
                    "description"@,
                ) && !read->0.extra.contains_key("format"@)
            }
        }),
{
}

/// The custom tools of a request are those that it declares, each under its name; a request
/// without any has none.
pub proof fn custom_tools_are_known(tools: Seq<ResponsesToolView>, i: int, n: int)
    requires
        0 <= i < n <= tools.len(),
        tools[i] is Custom,
        forall|j: int|
            i < j < n && (#[trigger] tools[j]) is Custom ==> tools[j]->Custom_0.name
                != tools[i]->Custom_0.name,
    ensures
        crate::custom::customs_declared(tools, n).contains_key(tools[i]->Custom_0.name),
        crate::custom::customs_declared(tools, n)[tools[i]->Custom_0.name] == tools[i]->Custom_0,
        crate::custom::custom_map_of(tools) is Some,
    decreases n,
{
    if i < n - 1 {
        custom_tools_are_known(tools, i, n - 1);
        let last = tools[n - 1];
    }
}

/// What a response declares as the function that stands for a custom tool is shown as the custom
/// tool that was declared; every other declaration is shown as it is, and in its place.
pub proof fn custom_declarations_are_shown(
    map: Map<Seq<char>, CustomToolParamView>,
    fields: Map<Seq<char>, JsonView>,
    response: Map<Seq<char>, JsonView>,
    tools: Seq<JsonView>,
    i: int,
    name: Seq<char>,
)
    requires
        fields.contains_key("response"@),
        fields["response"@] == JsonView::Object(response),
        response.contains_key("tools"@),
        response["tools"@] == JsonView::Array(tools),
        0 <= i < tools.len(),
    ensures
        ({
            let after = crate::custom::restored_declarations(map, fields);
            let shown = after["response"@]->Object_0["tools"@]->Array_0;
            &&& after.contains_key("response"@) && after["response"@] is Object
            &&& after["response"@]->Object_0.contains_key("tools"@)
                && after["response"@]->Object_0["tools"@] is Array
            &&& shown.len() == tools.len()
            &&& tools[i] is Object && crate::accumulator_laws::says(
                tools[i]->Object_0,
                "type"@,
                "function"@,
            ) && crate::accumulator_laws::says(tools[i]->Object_0, "name"@, name)
                && map.contains_key(name) ==> shown[i] == <ResponsesTool as ToJson>::json_of(
                ResponsesToolView::Custom(map[name]),
            )
            &&& !(tools[i] is Object) ==> shown[i] == tools[i]
            &&& tools[i] is Object && crate::accumulator_laws::says(
                tools[i]->Object_0,
                "name"@,
                name,
            ) && !map.contains_key(name) ==> shown[i] == tools[i]
            &&& tools[i] is Object && !crate::accumulator_laws::says(
                tools[i]->Object_0,
                "type"@,
                "function"@,
            ) ==> shown[i] == tools[i]
            &&& forall|key: Seq<char>|
                #![trigger after[key]]
                fields.contains_key(key) && key != "response"@ ==> after.contains_key(key)
                    && after[key] == fields[key]
        }),
{
}

/// What an item leaves out is filled in: a message is the assistant's, a message or a function
/// call that does not say how far it is has been completed, and a call without a name is none. An
/// item that does not say what it is, is none either.
pub proof fn left_out_fields_are_filled_in(fields: Map<Seq<char>, JsonView>)
    requires
        !fields.contains_key("status"@),
    ensures
        ({
            let item = <OutputItem as FromJson>::of_json(JsonView::Object(fields));
            let named = fields.contains_key("name"@) && fields["name"@] is Text;
            &&& crate::accumulator_laws::says(fields, "type"@, "message"@)
                && !fields.contains_key("content"@) && !fields.contains_key("role"@) ==> item
                is Some && item->0 is Message && item->0->Message_0.role == "assistant"@
                && item->0->Message_0.status is Completed && item->0->Message_0.content.len() == 0
            &&& crate::accumulator_laws::says(fields, "type"@, "function_call"@) && named
                && !fields.contains_key("namespace"@) ==> item is Some && item->0 is FunctionCall
                && item->0->FunctionCall_0.status is Completed && item->0->FunctionCall_0.name
                == fields["name"@]->Text_0 && item->0->FunctionCall_0.namespace is None
            &&& crate::accumulator_laws::says(fields, "type"@, "function_call"@) && named
                && !fields.contains_key("namespace"@) && !fields.contains_key("arguments"@)
                ==> item is Some && item->0->FunctionCall_0.arguments.len() == 0
            &&& crate::accumulator_laws::says(fields, "type"@, "function_call"@) && !named
                ==> item is None
            &&& crate::accumulator_laws::says(fields, "type"@, "custom_tool_call"@) && named
                ==> item is Some && item->0 is CustomToolCall
                && item->0->CustomToolCall_0.status is None && item->0->CustomToolCall_0.name
                == fields["name"@]->Text_0
            &&& crate::accumulator_laws::says(fields, "type"@, "custom_tool_call"@) && !named
                ==> item is None
            &&& crate::accumulator_laws::says(fields, "type"@, "web_search_call"@) ==> item is None
            &&& crate::accumulator_laws::says(fields, "type"@, "compaction"@)
                && !fields.contains_key("encrypted_content"@) ==> item is None
            &&& !fields.contains_key("type"@) ==> item is None
        }),
{
    reveal_strlit("message");
    reveal_strlit("reasoning");
    reveal_strlit("function_call");
    reveal_strlit("custom_tool_call");
    reveal_strlit("web_search_call");
    reveal_strlit("mcp_call");
    reveal_strlit("mcp_list_tools");
    reveal_strlit("tool_search_call");
    reveal_strlit("compaction");
    assert("message"@.len() == 7 && "reasoning"@.len() == 9 && "function_call"@.len() == 13);
    assert("web_search_call"@.len() == 15 && "mcp_call"@.len() == 8);
    assert("mcp_list_tools"@.len() == 14 && "compaction"@.len() == 10);
    assert("custom_tool_call"@.len() == 16 && "custom_tool_call"@[0] == 'c');
    assert("tool_search_call"@.len() == 16 && "tool_search_call"@[0] == 't');
}

} // verus!
