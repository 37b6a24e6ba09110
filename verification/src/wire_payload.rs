//! The JSON shapes of requests and responses.
use vstd::prelude::*;

use crate::data::Data;
#[allow(unused_imports)]
use crate::items::{
    CustomToolCall, CustomToolCallOutputMessage, CustomToolCallOutputMessageView,
    FunctionToolResultMessage, FunctionToolResultMessageView, InputContent, InputContentView,
    InputFunctionToolCall, InputFunctionToolCallView, InputImageContent, InputImageContentView,
    InputItem, InputItemView, InputMessage, InputMessageContent, InputMessageContentView,
    InputMessageView, InputTextContent, InputTextContentView, InputToolSearchCall,
    InputToolSearchCallView, McpListTools, OutputItem, ResponsesInput, ResponsesInputView,
    ToolSearchOutputMessage, ToolSearchOutputMessageView,
};
#[allow(unused_imports)]
use crate::json::{Json, JsonNumber, JsonObject, JsonView};
#[allow(unused_imports)]
use crate::payload::{
    CompactRequest, CompactRequestView, CompactedResponse, CompactedResponseView,
    ContextManagement, ContextManagementView, IncompleteDetails, IncompleteDetailsView,
    RequestPayload, RequestPayloadView, ResponsePayload, ResponsePayloadView, ResponseUsage,
    UpstreamRequest, UpstreamRequestView, UpstreamTool, UpstreamToolView,
};
use crate::text::{concat3, same_text};
#[allow(unused_imports)]
use crate::tools::{
    FunctionTool, ResponsesTool, ToolChoice, ToolChoiceView, ToolSearchExecution, ToolSearchStatus,
};
use crate::wire::{
    copy_without, read_in_place, read_list_or_empty, read_opt_bool, read_opt_float, read_opt_list,
    read_opt_text, read_opt_u64, read_record_fields, set_bool, set_json, set_list, set_number,
    set_text, set_u64, write_in_order, write_list, write_record, FromJson, ToJson,
};
use crate::wire_items::{
    compaction_to_fields, custom_call_to_fields, mcp_list_to_fields, read_compaction,
    read_custom_call, read_mcp_list, read_opt_message_status, read_opt_tool_search_status,
    read_reasoning, reasoning_to_fields, set_message_status, text_or_null_json,
};
use crate::wire_tools::read_execution;

verus! {

impl FromJson for InputContent {
    open spec fn of_json(value: JsonView) -> Option<InputContentView> {
        match value {
            JsonView::Object(fields) => match crate::json::text_field(fields, "type"@) {
                Some(t) => content_of(t, fields),
                None => None,
            },
            JsonView::Array(items) => match kind_in_place(items) {
                Some(t) => content_in_place(t, items.skip(1)),
                None => None,
            },
            _ => None,
        }
    }

    fn from_json(value: &Json) -> (out: Option<InputContent>) {
        match value {
            Json::Object(fields) => match fields.get_str("type") {
                Some(t) => read_content(t, fields),
                None => None,
            },
            Json::Array(items) => match read_kind_in_place(items) {
                Some(t) => read_content_in_place(t, items),
                None => None,
            },
            _ => None,
        }
    }
}

/// The kind that a list names in its first place, before the fields.
pub open spec fn kind_in_place(items: Seq<JsonView>) -> Option<Seq<char>> {
    if items.len() == 0 {
        None
    } else {
        crate::json::text_of(Some(items[0]))
    }
}

fn read_kind_in_place<'a>(items: &'a Vec<Json>) -> (out: Option<&'a str>)
    ensures
        crate::json::str_view(out) == kind_in_place(crate::json::array_view(items@)),
        out is Some ==> items@.len() > 0,
{
    if items.len() == 0 {
        return None;
    }
    match &items[0] {
        Json::Text(t) => Some(t.as_str()),
        _ => None,
    }
}

/// A part of a message whose fields stand in a list, after its kind.
pub open spec fn content_in_place(type_: Seq<char>, items: Seq<JsonView>) -> Option<
    InputContentView,
> {
    let fields = if type_ == "input_text"@ || type_ == "output_text"@ || type_
        == "reasoning_text"@ {
        crate::wire::in_place(seq!["text"@], 1, items)
    } else if type_ == "input_image"@ {
        crate::wire::in_place(seq!["image_url"@, "detail"@], 2, items)
    } else {
        Some(Map::empty())
    };
    match fields {
        Some(fields) => content_of(type_, fields),
        None => None,
    }
}

fn read_content_in_place(type_: &str, items: &Vec<Json>) -> (out: Option<InputContent>)
    requires
        items@.len() > 0,
    ensures
        crate::data::opt_view(out) == content_in_place(
            type_@,
            crate::json::array_view(items@).skip(1),
        ),
{
    let text: Vec<&'static str> = vec!["text"];
    let image: Vec<&'static str> = vec!["image_url", "detail"];
    proof {
        assert(crate::data::views(text@) =~= seq!["text"@]);
        assert(crate::data::views(image@) =~= seq!["image_url"@, "detail"@]);
    }
    let fields = if same_text(type_, "input_text") || same_text(type_, "output_text") || same_text(
        type_,
        "reasoning_text",
    ) {
        read_in_place(&text, 1, items, 1)
    } else if same_text(type_, "input_image") {
        read_in_place(&image, 2, items, 1)
    } else {
        Some(JsonObject::new())
    };
    match fields {
        Some(fields) => read_content(type_, &fields),
        None => None,
    }
}

/// The text of a part of a message.
pub open spec fn part_text(fields: Map<Seq<char>, JsonView>) -> Option<InputTextContentView> {
    match crate::json::text_field(fields, "text"@) {
        Some(text) => Some(InputTextContentView { text }),
        None => None,
    }
}

fn read_part_text(fields: &JsonObject) -> (out: Option<InputTextContent>)
    ensures
        crate::data::opt_view(out) == part_text(fields@),
{
    match fields.get_str("text") {
        Some(t) => Some(InputTextContent { text: t.to_owned() }),
        None => None,
    }
}

/// A part of a message whose kind is named by `type_`. A kind that is not known is kept
/// as such.
pub open spec fn content_of(
    type_: Seq<char>,
    fields: Map<Seq<char>, JsonView>,
) -> Option<InputContentView> {
    if type_ == "input_text"@ {
        match part_text(fields) {
            Some(t) => Some(InputContentView::InputText(t)),
            None => None,
        }
    } else if type_ == "output_text"@ {
        match part_text(fields) {
            Some(t) => Some(InputContentView::OutputText(t)),
            None => None,
        }
    } else if type_ == "reasoning_text"@ {
        match part_text(fields) {
            Some(t) => Some(InputContentView::ReasoningText(t)),
            None => None,
        }
    } else if type_ == "input_image"@ {
        match (
            crate::wire::opt_text(fields, "image_url"@),
            crate::wire::opt_text(fields, "detail"@),
        ) {
            (Some(image_url), Some(detail)) => Some(
                InputContentView::InputImage(InputImageContentView { image_url, detail }),
            ),
            _ => None,
        }
    } else {
        Some(InputContentView::Unknown)
    }
}

fn read_content(type_: &str, fields: &JsonObject) -> (out: Option<InputContent>)
    ensures
        crate::data::opt_view(out) == content_of(type_@, fields@),
{
    if same_text(type_, "input_text") {
        return match read_part_text(fields) {
            Some(t) => Some(InputContent::InputText(t)),
            None => None,
        };
    }
    if same_text(type_, "output_text") {
        return match read_part_text(fields) {
            Some(t) => Some(InputContent::OutputText(t)),
            None => None,
        };
    }
    if same_text(type_, "reasoning_text") {
        return match read_part_text(fields) {
            Some(t) => Some(InputContent::ReasoningText(t)),
            None => None,
        };
    }
    if same_text(type_, "input_image") {
        return match (read_opt_text(fields, "image_url"), read_opt_text(fields, "detail")) {
            (Some(image_url), Some(detail)) => Some(
                InputContent::InputImage(InputImageContent { image_url, detail }),
            ),
            _ => None,
        };
    }
    Some(InputContent::Unknown)
}

/// The fields of a part that is a text.
pub open spec fn text_part(type_: Seq<char>, text: Seq<char>) -> JsonView {
    JsonView::Object(
        Map::<Seq<char>, JsonView>::empty().insert("type"@, JsonView::Text(type_)).insert(
            "text"@,
            JsonView::Text(text),
        ),
    )
}

fn write_text_part(type_: &str, text: &str) -> (out: Json)
    ensures
        out@ == text_part(type_@, text@),
{
    let mut fields = JsonObject::new();
    fields.set_str("type", type_);
    fields.set_str("text", text);
    Json::Object(fields)
}

impl ToJson for InputContent {
    open spec fn json_of(part: InputContentView) -> JsonView {
        match part {
            InputContentView::InputText(t) => text_part("input_text"@, t.text),
            InputContentView::OutputText(t) => text_part("output_text"@, t.text),
            InputContentView::ReasoningText(t) => text_part("reasoning_text"@, t.text),
            InputContentView::InputImage(i) => JsonView::Object(
                Map::<Seq<char>, JsonView>::empty().insert(
                    "type"@,
                    JsonView::Text("input_image"@),
                ).insert("image_url"@, crate::wire_items::text_or_null(i.image_url)).insert(
                    "detail"@,
                    crate::wire_items::text_or_null(i.detail),
                ),
            ),
            InputContentView::Unknown => JsonView::Object(
                Map::<Seq<char>, JsonView>::empty().insert("type"@, JsonView::Text("unknown"@)),
            ),
        }
    }

    fn to_json(&self) -> (out: Json) {
        match self {
            InputContent::InputText(t) => write_text_part("input_text", t.text.as_str()),
            InputContent::OutputText(t) => write_text_part("output_text", t.text.as_str()),
            InputContent::ReasoningText(t) => write_text_part("reasoning_text", t.text.as_str()),
            InputContent::InputImage(i) => {
                let mut fields = JsonObject::new();
                fields.set_str("type", "input_image");
                fields.set("image_url", text_or_null_json(&i.image_url));
                fields.set("detail", text_or_null_json(&i.detail));
                Json::Object(fields)
            },
            InputContent::Unknown => {
                let mut fields = JsonObject::new();
                fields.set_str("type", "unknown");
                Json::Object(fields)
            },
        }
    }
}

impl FromJson for InputMessageContent {
    open spec fn of_json(value: JsonView) -> Option<InputMessageContentView> {
        match value {
            JsonView::Text(t) => Some(InputMessageContentView::Text(t)),
            JsonView::Array(items) => match crate::wire::list_of::<InputContent>(
                items,
                items.len() as int,
            ) {
                Some(parts) => Some(InputMessageContentView::Parts(parts)),
                None => None,
            },
            _ => None,
        }
    }

    fn from_json(value: &Json) -> (out: Option<InputMessageContent>) {
        match value {
            Json::Text(t) => Some(InputMessageContent::Text(t.clone())),
            Json::Array(items) => match crate::wire::read_list::<InputContent>(items) {
                Some(parts) => Some(InputMessageContent::Parts(parts)),
                None => None,
            },
            _ => None,
        }
    }
}

impl ToJson for InputMessageContent {
    open spec fn json_of(content: InputMessageContentView) -> JsonView {
        match content {
            InputMessageContentView::Text(t) => JsonView::Text(t),
            InputMessageContentView::Parts(parts) => JsonView::Array(
                crate::wire::list_json::<InputContent>(parts),
            ),
        }
    }

    fn to_json(&self) -> (out: Json) {
        match self {
            InputMessageContent::Text(t) => Json::text(t.as_str()),
            InputMessageContent::Parts(parts) => write_list::<InputContent>(parts),
        }
    }
}

/// A message read from its fields.
pub open spec fn message_of(fields: Map<Seq<char>, JsonView>) -> Option<InputMessageView> {
    match (
        crate::json::text_field(fields, "role"@),
        crate::json::object_field(fields, "content"@),
    ) {
        (Some(role), Some(value)) => match <InputMessageContent as FromJson>::of_json(value) {
            Some(content) => Some(InputMessageView { role, content }),
            None => None,
        },
        _ => None,
    }
}

fn read_message(fields: &JsonObject) -> (out: Option<InputMessage>)
    ensures
        crate::data::opt_view(out) == message_of(fields@),
{
    match (fields.get_str("role"), fields.get("content")) {
        (Some(role), Some(value)) => match InputMessageContent::from_json(value) {
            Some(content) => Some(InputMessage { role: role.to_owned(), content }),
            None => None,
        },
        _ => None,
    }
}

/// A function call of the history read from its fields.
pub open spec fn history_call_of(
    fields: Map<Seq<char>, JsonView>,
) -> Option<InputFunctionToolCallView> {
    match (
        (
            crate::json::text_field(fields, "call_id"@),
            crate::json::text_field(fields, "name"@),
            crate::json::text_field(fields, "arguments"@),
        ),
        (
            crate::wire::opt_text(fields, "id"@),
            crate::wire::opt_text(fields, "namespace"@),
            crate::wire_items::opt_message_status(fields, "status"@),
        ),
    ) {
        (
            (Some(call_id), Some(name), Some(arguments)),
            (Some(id), Some(namespace), Some(status)),
        ) => Some(
            InputFunctionToolCallView { id, call_id, name, namespace, arguments, status },
        ),
        _ => None,
    }
}

fn read_history_call(fields: &JsonObject) -> (out: Option<InputFunctionToolCall>)
    ensures
        crate::data::opt_view(out) == history_call_of(fields@),
{
    match (
        (fields.get_str("call_id"), fields.get_str("name"), fields.get_str("arguments")),
        (
            read_opt_text(fields, "id"),
            read_opt_text(fields, "namespace"),
            read_opt_message_status(fields, "status"),
        ),
    ) {
        (
            (Some(call_id), Some(name), Some(arguments)),
            (Some(id), Some(namespace), Some(status)),
        ) => Some(
            InputFunctionToolCall {
                id,
                call_id: call_id.to_owned(),
                name: name.to_owned(),
                namespace,
                arguments: arguments.to_owned(),
                status,
            },
        ),
        _ => None,
    }
}

/// Who runs a search and how far it is, where that is said, and nothing where either is
/// said in another word.
pub open spec fn search_run_of(fields: Map<Seq<char>, JsonView>) -> Option<
    (Option<ToolSearchExecution>, Option<ToolSearchStatus>),
> {
    match (
        crate::wire::opt_text(fields, "execution"@),
        crate::wire_items::opt_tool_search_status(fields, "status"@),
    ) {
        (Some(execution), Some(status)) => match crate::wire_tools::execution_of(execution) {
            Some(execution) => Some((execution, status)),
            None => None,
        },
        _ => None,
    }
}

fn read_search_run(fields: &JsonObject) -> (out: Option<
    (Option<ToolSearchExecution>, Option<ToolSearchStatus>),
>)
    ensures
        out == search_run_of(fields@),
{
    match (
        read_opt_text(fields, "execution"),
        read_opt_tool_search_status(fields, "status"),
    ) {
        (Some(execution), Some(status)) => match read_execution(&execution) {
            Some(execution) => Some((execution, status)),
            None => None,
        },
        _ => None,
    }
}

/// An item of the input whose kind is named by `type_`. A kind that is not known is
/// kept as such.
pub open spec fn input_item_of(
    type_: Seq<char>,
    fields: Map<Seq<char>, JsonView>,
) -> Option<InputItemView> {
    if type_ == "message"@ {
        match message_of(fields) {
            Some(m) => Some(InputItemView::Message(m)),
            None => None,
        }
    } else if type_ == "function_call"@ {
        match history_call_of(fields) {
            Some(c) => Some(InputItemView::FunctionCall(c)),
            None => None,
        }
    } else if type_ == "function_call_output"@ {
        match (
            crate::json::text_field(fields, "call_id"@),
            crate::json::text_field(fields, "output"@),
        ) {
            (Some(call_id), Some(output)) => Some(
                InputItemView::FunctionCallOutput(
                    FunctionToolResultMessageView { call_id, output },
                ),
            ),
            _ => None,
        }
    } else if type_ == "custom_tool_call"@ {
        match crate::wire_items::custom_call_of(fields) {
            Some(c) => Some(InputItemView::CustomToolCall(c)),
            None => None,
        }
    } else if type_ == "custom_tool_call_output"@ {
        match (
            crate::json::text_field(fields, "call_id"@),
            crate::wire::opt_text(fields, "name"@),
            crate::json::object_field(fields, "output"@),
        ) {
            (Some(call_id), Some(name), Some(output)) => Some(
                InputItemView::CustomToolCallOutput(
                    CustomToolCallOutputMessageView { call_id, name, output },
                ),
            ),
            _ => None,
        }
    } else if type_ == "tool_search_call"@ {
        match (
            crate::json::text_field(fields, "id"@),
            crate::json::text_field(fields, "call_id"@),
            crate::json::object_field(fields, "arguments"@),
            search_run_of(fields),
        ) {
            (
                Some(id),
                Some(call_id),
                Some(JsonView::Object(arguments)),
                Some((execution, status)),
            ) => Some(
                InputItemView::ToolSearchCall(
                    InputToolSearchCallView { id, call_id, arguments, execution, status },
                ),
            ),
            _ => None,
        }
    } else if type_ == "tool_search_output"@ {
        match (
            crate::json::text_field(fields, "call_id"@),
            crate::wire::list_or_empty::<ResponsesTool>(fields, "tools"@),
            search_run_of(fields),
        ) {
            (Some(call_id), Some(tools), Some((execution, status))) => Some(
                InputItemView::ToolSearchOutput(
                    ToolSearchOutputMessageView { call_id, tools, execution, status },
                ),
            ),
            _ => None,
        }
    } else if type_ == "reasoning"@ {
        match crate::wire_items::reasoning_of(fields) {
            Some(r) => Some(InputItemView::Reasoning(r)),
            None => None,
        }
    } else if type_ == "mcp_list_tools"@ {
        match crate::wire_items::mcp_list_of(fields) {
            Some(l) => Some(InputItemView::McpListTools(l)),
            None => None,
        }
    } else if type_ == "compaction"@ {
        match crate::wire_items::compaction_of(fields) {
            Some(c) => Some(InputItemView::Compaction(c)),
            None => None,
        }
    } else if type_ == "compaction_trigger"@ {
        Some(InputItemView::CompactionTrigger)
    } else {
        Some(InputItemView::Unknown)
    }
}

fn read_input_item(type_: &str, fields: &JsonObject) -> (out: Option<InputItem>)
    ensures
        crate::data::opt_view(out) == input_item_of(type_@, fields@),
{
    if same_text(type_, "message") {
        return match read_message(fields) {
            Some(m) => Some(InputItem::Message(m)),
            None => None,
        };
    }
    if same_text(type_, "function_call") {
        return match read_history_call(fields) {
            Some(c) => Some(InputItem::FunctionCall(c)),
            None => None,
        };
    }
    if same_text(type_, "function_call_output") {
        return match (fields.get_str("call_id"), fields.get_str("output")) {
            (Some(call_id), Some(output)) => Some(
                InputItem::FunctionCallOutput(
                    FunctionToolResultMessage {
                        call_id: call_id.to_owned(),
                        output: output.to_owned(),
                    },
                ),
            ),
            _ => None,
        };
    }
    if same_text(type_, "custom_tool_call") {
        return match read_custom_call(fields) {
            Some(c) => Some(InputItem::CustomToolCall(c)),
            None => None,
        };
    }
    if same_text(type_, "custom_tool_call_output") {
        return match (
            fields.get_str("call_id"),
            read_opt_text(fields, "name"),
            fields.get("output"),
        ) {
            (Some(call_id), Some(name), Some(output)) => Some(
                InputItem::CustomToolCallOutput(
                    CustomToolCallOutputMessage {
                        call_id: call_id.to_owned(),
                        name,
                        output: output.copy(),
                    },
                ),
            ),
            _ => None,
        };
    }
    if same_text(type_, "tool_search_call") {
        return match (
            fields.get_str("id"),
            fields.get_str("call_id"),
            fields.get("arguments"),
            read_search_run(fields),
        ) {
            (
                Some(id),
                Some(call_id),
                Some(Json::Object(arguments)),
                Some((execution, status)),
            ) => Some(
                InputItem::ToolSearchCall(
                    InputToolSearchCall {
                        id: id.to_owned(),
                        call_id: call_id.to_owned(),
                        arguments: arguments.copy(),
                        execution,
                        status,
                    },
                ),
            ),
            _ => None,
        };
    }
    if same_text(type_, "tool_search_output") {
        return match (
            fields.get_str("call_id"),
            read_list_or_empty::<ResponsesTool>(fields, "tools"),
            read_search_run(fields),
        ) {
            (Some(call_id), Some(tools), Some((execution, status))) => Some(
                InputItem::ToolSearchOutput(
                    ToolSearchOutputMessage {
                        call_id: call_id.to_owned(),
                        tools,
                        execution,
                        status,
                    },
                ),
            ),
            _ => None,
        };
    }
    if same_text(type_, "reasoning") {
        return match read_reasoning(fields) {
            Some(r) => Some(InputItem::Reasoning(r)),
            None => None,
        };
    }
    if same_text(type_, "mcp_list_tools") {
        return match read_mcp_list(fields) {
            Some(l) => Some(InputItem::McpListTools(l)),
            None => None,
        };
    }
    if same_text(type_, "compaction") {
        return match read_compaction(fields) {
            Some(c) => Some(InputItem::Compaction(c)),
            None => None,
        };
    }
    if same_text(type_, "compaction_trigger") {
        return Some(InputItem::CompactionTrigger);
    }
    Some(InputItem::Unknown)
}

/// Whether an item of a kind is a call, a search, what a search found or something else that
/// a model put out.
pub open spec fn is_output_kind(type_: Seq<char>) -> bool {
    type_ == "function_call"@ || type_ == "custom_tool_call"@ || type_ == "tool_search_call"@
        || type_ == "tool_search_output"@ || type_ == "reasoning"@ || type_ == "mcp_list_tools"@
        || type_ == "compaction"@
}

fn names_output_kind(type_: &str) -> (yes: bool)
    ensures
        yes == is_output_kind(type_@),
{
    same_text(type_, "function_call") || same_text(type_, "custom_tool_call") || same_text(
        type_,
        "tool_search_call",
    ) || same_text(type_, "tool_search_output") || same_text(type_, "reasoning") || same_text(
        type_,
        "mcp_list_tools",
    ) || same_text(type_, "compaction")
}

/// An item of the input whose fields stand in a list, after its kind. Messages and results
/// of calls can be written so, not calls, searches and what a model put out.
pub open spec fn input_item_in_place(type_: Seq<char>, items: Seq<JsonView>) -> Option<
    InputItemView,
> {
    let fields = if type_ == "message"@ {
        crate::wire::in_place(seq!["role"@, "content"@], 2, items)
    } else if type_ == "function_call_output"@ {
        crate::wire::in_place(seq!["call_id"@, "output"@], 2, items)
    } else if type_ == "custom_tool_call_output"@ {
        crate::wire::in_place(seq!["call_id"@, "name"@, "output"@], 3, items)
    } else if is_output_kind(type_) {
        None
    } else {
        Some(Map::empty())
    };
    match fields {
        Some(fields) => input_item_of(type_, fields),
        None => None,
    }
}

fn read_input_item_in_place(type_: &str, items: &Vec<Json>) -> (out: Option<InputItem>)
    requires
        items@.len() > 0,
    ensures
        crate::data::opt_view(out) == input_item_in_place(
            type_@,
            crate::json::array_view(items@).skip(1),
        ),
{
    let message: Vec<&'static str> = vec!["role", "content"];
    let result: Vec<&'static str> = vec!["call_id", "output"];
    let named: Vec<&'static str> = vec!["call_id", "name", "output"];
    proof {
        assert(crate::data::views(message@) =~= seq!["role"@, "content"@]);
        assert(crate::data::views(result@) =~= seq!["call_id"@, "output"@]);
        assert(crate::data::views(named@) =~= seq!["call_id"@, "name"@, "output"@]);
    }
    let fields = if same_text(type_, "message") {
        read_in_place(&message, 2, items, 1)
    } else if same_text(type_, "function_call_output") {
        read_in_place(&result, 2, items, 1)
    } else if same_text(type_, "custom_tool_call_output") {
        read_in_place(&named, 3, items, 1)
    } else if names_output_kind(type_) {
        None
    } else {
        Some(JsonObject::new())
    };
    match fields {
        Some(fields) => read_input_item(type_, &fields),
        None => None,
    }
}

impl FromJson for InputItem {
    /// An item that does not say its kind is a message.
    open spec fn of_json(value: JsonView) -> Option<InputItemView> {
        match value {
            JsonView::Object(fields) => match crate::json::object_field(fields, "type"@) {
                None => input_item_of("message"@, fields),
                Some(JsonView::Text(t)) => input_item_of(t, fields),
                _ => None,
            },
            JsonView::Array(items) => match kind_in_place(items) {
                Some(t) => input_item_in_place(t, items.skip(1)),
                None => None,
            },
            _ => None,
        }
    }

    fn from_json(value: &Json) -> (out: Option<InputItem>) {
        match value {
            Json::Object(fields) => match fields.get("type") {
                None => read_input_item("message", fields),
                Some(Json::Text(t)) => read_input_item(t.as_str(), fields),
                _ => None,
            },
            Json::Array(items) => match read_kind_in_place(items) {
                Some(t) => read_input_item_in_place(t, items),
                None => None,
            },
            _ => None,
        }
    }
}

/// The fields of a search with who runs it and how far it is, where that is said.
pub open spec fn with_search_run(
    fields: Map<Seq<char>, JsonView>,
    execution: Option<ToolSearchExecution>,
    status: Option<ToolSearchStatus>,
) -> Map<Seq<char>, JsonView> {
    crate::wire::with_text(
        crate::wire::with_text(
            fields,
            "execution"@,
            crate::wire_items::execution_name(execution),
        ),
        "status"@,
        crate::wire_items::status_name(status),
    )
}

fn set_search_run(
    fields: &mut JsonObject,
    execution: Option<ToolSearchExecution>,
    status: Option<ToolSearchStatus>,
)
    ensures
        final(fields)@ == with_search_run(old(fields)@, execution, status),
{
    if let Some(e) = execution {
        fields.set_str("execution", e.as_str());
    }
    if let Some(s) = status {
        fields.set_str("status", s.as_str());
    }
}

/// The fields of an item of the input.
pub open spec fn input_item_fields(item: InputItemView) -> Map<Seq<char>, JsonView> {
    let nothing = Map::<Seq<char>, JsonView>::empty();
    match item {
        InputItemView::Message(m) => nothing.insert("type"@, JsonView::Text("message"@)).insert(
            "role"@,
            JsonView::Text(m.role),
        ).insert("content"@, <InputMessageContent as ToJson>::json_of(m.content)),
        InputItemView::FunctionCall(c) => crate::wire_items::with_message_status(
            crate::wire::with_text(
                crate::wire::with_text(
                    nothing.insert("type"@, JsonView::Text("function_call"@)),
                    "id"@,
                    c.id,
                ).insert("call_id"@, JsonView::Text(c.call_id)).insert(
                    "name"@,
                    JsonView::Text(c.name),
                ),
                "namespace"@,
                c.namespace,
            ).insert("arguments"@, JsonView::Text(c.arguments)),
            "status"@,
            c.status,
        ),
        InputItemView::FunctionCallOutput(o) => nothing.insert(
            "type"@,
            JsonView::Text("function_call_output"@),
        ).insert("call_id"@, JsonView::Text(o.call_id)).insert("output"@, JsonView::Text(o.output)),
        InputItemView::CustomToolCall(c) => crate::wire_items::custom_call_fields(c),
        InputItemView::CustomToolCallOutput(o) => crate::wire::with_text(
            nothing.insert("type"@, JsonView::Text("custom_tool_call_output"@)).insert(
                "call_id"@,
                JsonView::Text(o.call_id),
            ),
            "name"@,
            o.name,
        ).insert("output"@, o.output),
        InputItemView::ToolSearchCall(c) => with_search_run(
            nothing.insert("type"@, JsonView::Text("tool_search_call"@)).insert(
                "id"@,
                JsonView::Text(c.id),
            ).insert("call_id"@, JsonView::Text(c.call_id)).insert(
                "arguments"@,
                JsonView::Object(c.arguments),
            ),
            c.execution,
            c.status,
        ),
        InputItemView::ToolSearchOutput(o) => with_search_run(
            nothing.insert("type"@, JsonView::Text("tool_search_output"@)).insert(
                "call_id"@,
                JsonView::Text(o.call_id),
            ).insert(
                "tools"@,
                JsonView::Array(crate::wire::list_json::<ResponsesTool>(o.tools)),
            ),
            o.execution,
            o.status,
        ),
        InputItemView::Reasoning(r) => crate::wire_items::reasoning_fields(r),
        InputItemView::McpListTools(l) => crate::wire_items::mcp_list_fields(l),
        InputItemView::Compaction(c) => crate::wire_items::compaction_fields(c),
        InputItemView::CompactionTrigger => nothing.insert(
            "type"@,
            JsonView::Text("compaction_trigger"@),
        ),
        InputItemView::Unknown => nothing.insert("type"@, JsonView::Text("unknown"@)),
    }
}

fn input_item_to_fields(item: &InputItem) -> (fields: JsonObject)
    ensures
        fields@ == input_item_fields(item@),
{
    let mut fields = JsonObject::new();
    match item {
        InputItem::Message(m) => {
            fields.set_str("type", "message");
            fields.set_str("role", m.role.as_str());
            fields.set("content", m.content.to_json());
        },
        InputItem::FunctionCall(c) => {
            fields.set_str("type", "function_call");
            set_text(&mut fields, "id", &c.id);
            fields.set_str("call_id", c.call_id.as_str());
            fields.set_str("name", c.name.as_str());
            set_text(&mut fields, "namespace", &c.namespace);
            fields.set_str("arguments", c.arguments.as_str());
            set_message_status(&mut fields, "status", c.status);
        },
        InputItem::FunctionCallOutput(o) => {
            fields.set_str("type", "function_call_output");
            fields.set_str("call_id", o.call_id.as_str());
            fields.set_str("output", o.output.as_str());
        },
        InputItem::CustomToolCall(c) => {
            return custom_call_to_fields(c);
        },
        InputItem::CustomToolCallOutput(o) => {
            fields.set_str("type", "custom_tool_call_output");
            fields.set_str("call_id", o.call_id.as_str());
            set_text(&mut fields, "name", &o.name);
            fields.set("output", o.output.copy());
        },
        InputItem::ToolSearchCall(c) => {
            fields.set_str("type", "tool_search_call");
            fields.set_str("id", c.id.as_str());
            fields.set_str("call_id", c.call_id.as_str());
            fields.set("arguments", Json::Object(c.arguments.copy()));
            set_search_run(&mut fields, c.execution, c.status);
        },
        InputItem::ToolSearchOutput(o) => {
            fields.set_str("type", "tool_search_output");
            fields.set_str("call_id", o.call_id.as_str());
            fields.set("tools", write_list::<ResponsesTool>(&o.tools));
            set_search_run(&mut fields, o.execution, o.status);
        },
        InputItem::Reasoning(r) => {
            return reasoning_to_fields(r);
        },
        InputItem::McpListTools(l) => {
            return mcp_list_to_fields(l);
        },
        InputItem::Compaction(c) => {
            return compaction_to_fields(c);
        },
        InputItem::CompactionTrigger => {
            fields.set_str("type", "compaction_trigger");
        },
        InputItem::Unknown => {
            fields.set_str("type", "unknown");
        },
    }
    fields
}

impl ToJson for InputItem {
    open spec fn json_of(item: InputItemView) -> JsonView {
        JsonView::Object(input_item_fields(item))
    }

    fn to_json(&self) -> (out: Json) {
        Json::Object(input_item_to_fields(self))
    }
}

impl FromJson for ResponsesInput {
    open spec fn of_json(value: JsonView) -> Option<ResponsesInputView> {
        match value {
            JsonView::Text(t) => Some(ResponsesInputView::Text(t)),
            JsonView::Array(items) => match crate::wire::list_of::<InputItem>(
                items,
                items.len() as int,
            ) {
                Some(list) => Some(ResponsesInputView::Items(list)),
                None => None,
            },
            _ => None,
        }
    }

    fn from_json(value: &Json) -> (out: Option<ResponsesInput>) {
        match value {
            Json::Text(t) => Some(ResponsesInput::Text(t.clone())),
            Json::Array(items) => match crate::wire::read_list::<InputItem>(items) {
                Some(list) => Some(ResponsesInput::Items(list)),
                None => None,
            },
            _ => None,
        }
    }
}

impl ToJson for ResponsesInput {
    open spec fn json_of(input: ResponsesInputView) -> JsonView {
        match input {
            ResponsesInputView::Text(t) => JsonView::Text(t),
            ResponsesInputView::Items(items) => JsonView::Array(
                crate::wire::list_json::<InputItem>(items),
            ),
        }
    }

    fn to_json(&self) -> (out: Json) {
        match self {
            ResponsesInput::Text(t) => Json::text(t.as_str()),
            ResponsesInput::Items(items) => write_list::<InputItem>(items),
        }
    }
}

impl FromJson for ContextManagement {
    open spec fn of_json(value: JsonView) -> Option<ContextManagementView> {
        match crate::wire::record_fields(value, seq!["type"@, "compact_threshold"@], 1) {
            Some(fields) => match (
                crate::json::text_field(fields, "type"@),
                crate::wire::opt_u64(fields, "compact_threshold"@),
            ) {
                (Some(type_), Some(compact_threshold)) => Some(
                    ContextManagementView { type_, compact_threshold },
                ),
                _ => None,
            },
            None => None,
        }
    }

    fn from_json(value: &Json) -> (out: Option<ContextManagement>) {
        let names: Vec<&'static str> = vec!["type", "compact_threshold"];
        proof {
            assert(crate::data::views(names@) =~= seq!["type"@, "compact_threshold"@]);
        }
        match read_record_fields(value, &names, 1) {
            Some(fields) => match (
                fields.get_str("type"),
                read_opt_u64(&fields, "compact_threshold"),
            ) {
                (Some(type_), Some(compact_threshold)) => Some(
                    ContextManagement { type_: type_.to_owned(), compact_threshold },
                ),
                _ => None,
            },
            None => None,
        }
    }
}

/// A flag of a request; the default where it is absent. Null is no flag.
pub open spec fn flag_or(
    fields: Map<Seq<char>, JsonView>,
    key: Seq<char>,
    default: bool,
) -> Option<bool> {
    match crate::json::object_field(fields, key) {
        None => Some(default),
        Some(JsonView::Bool(b)) => Some(b),
        _ => None,
    }
}

fn read_flag_or(fields: &JsonObject, key: &str, default: bool) -> (out: Option<bool>)
    ensures
        out == flag_or(fields@, key@, default),
{
    match fields.get(key) {
        None => Some(default),
        Some(Json::Bool(b)) => Some(*b),
        _ => None,
    }
}

/// A choice among the tools, where the request makes one.
pub open spec fn choice_of(fields: Map<Seq<char>, JsonView>) -> Option<Option<ToolChoiceView>> {
    match crate::custom::non_null(crate::json::object_field(fields, "tool_choice"@)) {
        None => Some(None),
        Some(value) => match <ToolChoice as FromJson>::of_json(value) {
            Some(choice) => Some(Some(choice)),
            None => None,
        },
    }
}

fn read_choice(fields: &JsonObject) -> (out: Option<Option<ToolChoice>>)
    ensures
        crate::wire::opt_opt(out) == choice_of(fields@),
{
    match fields.get("tool_choice") {
        None => Some(None),
        Some(Json::Null) => Some(None),
        Some(value) => match ToolChoice::from_json(value) {
            Some(choice) => Some(Some(choice)),
            None => None,
        },
    }
}

/// A number of tokens that fits in 32 bits, or none.
pub open spec fn token_limit(fields: Map<Seq<char>, JsonView>) -> Option<Option<u64>> {
    match crate::wire::opt_u64(fields, "max_output_tokens"@) {
        Some(Some(n)) => if n <= u32::MAX {
            Some(Some(n))
        } else {
            None
        },
        other => other,
    }
}

fn read_token_limit(fields: &JsonObject) -> (out: Option<Option<u64>>)
    ensures
        out == token_limit(fields@),
{
    match read_opt_u64(fields, "max_output_tokens") {
        Some(Some(n)) => if n <= u32::MAX as u64 {
            Some(Some(n))
        } else {
            None
        },
        other => other,
    }
}

/// The input of a request, which must be there.
pub open spec fn input_of(fields: Map<Seq<char>, JsonView>) -> Option<ResponsesInputView> {
    match crate::json::object_field(fields, "input"@) {
        Some(value) => <ResponsesInput as FromJson>::of_json(value),
        None => None,
    }
}

fn read_input(fields: &JsonObject) -> (out: Option<ResponsesInput>)
    ensures
        crate::data::opt_view(out) == input_of(fields@),
{
    match fields.get("input") {
        Some(value) => ResponsesInput::from_json(value),
        None => None,
    }
}

/// A request read from its fields.
pub open spec fn request_of(fields: Map<Seq<char>, JsonView>) -> Option<RequestPayloadView> {
    match (
        (
            crate::json::text_field(fields, "model"@),
            input_of(fields),
            crate::wire::opt_text(fields, "instructions"@),
            crate::wire::opt_text(fields, "previous_response_id"@),
            crate::wire::opt_text(fields, "conversation_id"@),
            crate::wire::opt_list::<ResponsesTool>(fields, "tools"@),
        ),
        (
            choice_of(fields),
            flag_or(fields, "stream"@, false),
            flag_or(fields, "store"@, true),
            crate::wire::opt_list::<String>(fields, "include"@),
            crate::wire::opt_float(fields, "temperature"@),
            crate::wire::opt_float(fields, "top_p"@),
        ),
        (
            token_limit(fields),
            crate::wire::opt_text(fields, "truncation"@),
            crate::wire::opt_bool(fields, "parallel_tool_calls"@),
            crate::wire::opt_text(fields, "cache_salt"@),
            crate::wire::opt_list::<ContextManagement>(fields, "context_management"@),
        ),
    ) {
        (
            (
                Some(model),
                Some(input),
                Some(instructions),
                Some(previous_response_id),
                Some(conversation_id),
                Some(tools),
            ),
            (
                Some(tool_choice),
                Some(stream),
                Some(store),
                Some(include_fields),
                Some(temperature),
                Some(top_p),
            ),
            (
                Some(max_output_tokens),
                Some(truncation),
                Some(parallel_tool_calls),
                Some(cache_salt),
                Some(context_management),
            ),
        ) => Some(
            RequestPayloadView {
                model,
                input,
                instructions,
                previous_response_id,
                conversation_id,
                tools,
                tool_choice,
                stream,
                store,
                include_fields,
                temperature,
                top_p,
                max_output_tokens,
                truncation,
                metadata: crate::custom::non_null(crate::json::object_field(fields, "metadata"@)),
                parallel_tool_calls,
                cache_salt,
                context_management,
            },
        ),
        _ => None,
    }
}

/// The fields of a request, in order. The last two may be left out of a list.
pub open spec fn request_names() -> Seq<Seq<char>> {
    seq![
        "model"@,
        "input"@,
        "instructions"@,
        "previous_response_id"@,
        "conversation_id"@,
        "tools"@,
        "tool_choice"@,
        "stream"@,
        "store"@,
        "include"@,
        "temperature"@,
        "top_p"@,
        "max_output_tokens"@,
        "truncation"@,
        "metadata"@,
        "parallel_tool_calls"@,
        "cache_salt"@,
        "context_management"@,
    ]
}

fn make_request_names() -> (names: Vec<&'static str>)
    ensures
        crate::data::views(names@) == request_names(),
{
    let names: Vec<&'static str> = vec![
        "model",
        "input",
        "instructions",
        "previous_response_id",
        "conversation_id",
        "tools",
        "tool_choice",
        "stream",
        "store",
        "include",
        "temperature",
        "top_p",
        "max_output_tokens",
        "truncation",
        "metadata",
        "parallel_tool_calls",
        "cache_salt",
        "context_management",
    ];
    proof {
        assert(crate::data::views(names@) =~= request_names());
    }
    names
}

impl FromJson for RequestPayload {
    open spec fn of_json(value: JsonView) -> Option<RequestPayloadView> {
        match crate::wire::record_fields(value, request_names(), 16) {
            Some(fields) => request_of(fields),
            None => None,
        }
    }

    fn from_json(value: &Json) -> (out: Option<RequestPayload>) {
        let names = make_request_names();
        let given = match read_record_fields(value, &names, 16) {
            Some(fields) => fields,
            None => {
                return None;
            },
        };
        let fields = &given;
        let metadata = crate::custom::copy_non_null(fields.get("metadata"));
        match (
            (
                fields.get_str("model"),
                read_input(fields),
                read_opt_text(fields, "instructions"),
                read_opt_text(fields, "previous_response_id"),
                read_opt_text(fields, "conversation_id"),
                read_opt_list::<ResponsesTool>(fields, "tools"),
            ),
            (
                read_choice(fields),
                read_flag_or(fields, "stream", false),
                read_flag_or(fields, "store", true),
                read_opt_list::<String>(fields, "include"),
                read_opt_float(fields, "temperature"),
                read_opt_float(fields, "top_p"),
            ),
            (
                read_token_limit(fields),
                read_opt_text(fields, "truncation"),
                read_opt_bool(fields, "parallel_tool_calls"),
                read_opt_text(fields, "cache_salt"),
                read_opt_list::<ContextManagement>(fields, "context_management"),
            ),
        ) {
            (
                (
                    Some(model),
                    Some(input),
                    Some(instructions),
                    Some(previous_response_id),
                    Some(conversation_id),
                    Some(tools),
                ),
                (
                    Some(tool_choice),
                    Some(stream),
                    Some(store),
                    Some(include_fields),
                    Some(temperature),
                    Some(top_p),
                ),
                (
                    Some(max_output_tokens),
                    Some(truncation),
                    Some(parallel_tool_calls),
                    Some(cache_salt),
                    Some(context_management),
                ),
            ) => Some(
                RequestPayload {
                    model: model.to_owned(),
                    input,
                    instructions,
                    previous_response_id,
                    conversation_id,
                    tools,
                    tool_choice,
                    stream,
                    store,
                    include_fields,
                    temperature,
                    top_p,
                    max_output_tokens,
                    truncation,
                    metadata,
                    parallel_tool_calls,
                    cache_salt,
                    context_management,
                },
            ),
            _ => None,
        }
    }
}

/// The input of a compaction, where there is one.
pub open spec fn compact_input(
    fields: Map<Seq<char>, JsonView>,
) -> Option<Option<ResponsesInputView>> {
    match crate::custom::non_null(crate::json::object_field(fields, "input"@)) {
        None => Some(None),
        Some(value) => match <ResponsesInput as FromJson>::of_json(value) {
            Some(input) => Some(Some(input)),
            None => None,
        },
    }
}

fn read_compact_input(fields: &JsonObject) -> (out: Option<Option<ResponsesInput>>)
    ensures
        crate::wire::opt_opt(out) == compact_input(fields@),
{
    match fields.get("input") {
        None => Some(None),
        Some(Json::Null) => Some(None),
        Some(value) => match ResponsesInput::from_json(value) {
            Some(input) => Some(Some(input)),
            None => None,
        },
    }
}

impl FromJson for CompactRequest {
    /// A request for a compaction. Every field without a meaning of its own is kept.
    open spec fn of_json(value: JsonView) -> Option<CompactRequestView> {
        match value {
            JsonView::Object(fields) => match (
                crate::json::text_field(fields, "model"@),
                compact_input(fields),
                crate::wire::opt_text(fields, "instructions"@),
                crate::wire::opt_text(fields, "previous_response_id"@),
            ) {
                (Some(model), Some(input), Some(instructions), Some(previous_response_id)) => Some(
                    CompactRequestView {
                        model,
                        input,
                        instructions,
                        previous_response_id,
                        compatibility: crate::wire::without(
                            fields,
                            seq!["model"@, "input"@, "instructions"@, "previous_response_id"@],
                        ),
                    },
                ),
                _ => None,
            },
            _ => None,
        }
    }

    fn from_json(value: &Json) -> (out: Option<CompactRequest>) {
        let fields = match value {
            Json::Object(fields) => fields,
            _ => {
                return None;
            },
        };
        let keys: Vec<&'static str> = vec![
            "model",
            "input",
            "instructions",
            "previous_response_id",
        ];
        let compatibility = copy_without(fields, &keys);
        proof {
            assert(keys@.map_values(|k: &'static str| k@) =~= seq![
                "model"@,
                "input"@,
                "instructions"@,
                "previous_response_id"@,
            ]);
        }
        match (
            fields.get_str("model"),
            read_compact_input(fields),
            read_opt_text(fields, "instructions"),
            read_opt_text(fields, "previous_response_id"),
        ) {
            (Some(model), Some(input), Some(instructions), Some(previous_response_id)) => Some(
                CompactRequest {
                    model: model.to_owned(),
                    input,
                    instructions,
                    previous_response_id,
                    compatibility,
                },
            ),
            _ => None,
        }
    }
}

/// A choice as an upstream server knows it: custom tools are functions to it.
pub open spec fn upstream_choice(choice: ToolChoiceView) -> ToolChoiceView {
    match choice {
        ToolChoiceView::Custom { name } => ToolChoiceView::Function { namespace: None, name },
        ToolChoiceView::AllowedTools { mode, tools } => ToolChoiceView::AllowedTools {
            mode,
            tools: tools.map_values(
                |tool: crate::tools::AllowedToolView| upstream_allowed(tool),
            ),
        },
        other => other,
    }
}

/// An allowed tool as an upstream server knows it.
pub open spec fn upstream_allowed(
    tool: crate::tools::AllowedToolView,
) -> crate::tools::AllowedToolView {
    if tool.type_ == "custom"@ {
        crate::tools::AllowedToolView { type_: "function"@, ..tool }
    } else {
        tool
    }
}

impl ToolChoice {
    /// The choice as an upstream server knows it: custom tools are functions to it.
    pub fn normalized_for_upstream(&self) -> (choice: ToolChoice)
        ensures
            choice@ == upstream_choice(self@),
    {
        match self {
            ToolChoice::Custom { name } => ToolChoice::Function {
                namespace: None,
                name: name.clone(),
            },
            ToolChoice::AllowedTools { mode, tools } => {
                let mut out: Vec<crate::tools::AllowedTool> = Vec::new();
                let mut i: usize = 0;
                while i < tools.len()
                    invariant
                        i <= tools@.len(),
                        out@.len() == i,
                        forall|j: int|
                            0 <= j < i ==> (#[trigger] out@[j])@ == upstream_allowed(tools@[j]@),
                    decreases tools@.len() - i,
                {
                    let mut tool = tools[i].copied();
                    if same_text(tool.type_.as_str(), "custom") {
                        tool.type_ = "function".to_owned();
                    }
                    out.push(tool);
                    i = i + 1;
                }
                proof {
                    assert(crate::data::views(out@) =~= crate::data::views(tools@).map_values(
                        |tool: crate::tools::AllowedToolView| upstream_allowed(tool),
                    ));
                }
                ToolChoice::AllowedTools { mode: *mode, tools: out }
            },
            other => other.copied(),
        }
    }
}

/// The choice that is written for an upstream server: none where it is the default.
pub open spec fn written_choice(choice: Option<ToolChoiceView>) -> Option<JsonView> {
    match choice {
        None | Some(ToolChoiceView::Auto) => None,
        Some(c) => Some(<ToolChoice as ToJson>::json_of(upstream_choice(c))),
    }
}

fn write_choice(choice: &Option<ToolChoice>) -> (out: Option<Json>)
    ensures
        crate::data::opt_view(out) == written_choice(crate::data::opt_view(*choice)),
{
    match choice {
        None => None,
        Some(ToolChoice::Auto) => None,
        Some(c) => Some(c.normalized_for_upstream().to_json()),
    }
}

impl ToJson for UpstreamTool {
    open spec fn json_of(tool: UpstreamToolView) -> JsonView {
        match tool {
            UpstreamToolView::Function(f) => <FunctionTool as ToJson>::json_of(f),
        }
    }

    fn to_json(&self) -> (out: Json) {
        match self {
            UpstreamTool::Function(f) => f.to_json(),
        }
    }
}

impl ToJson for UpstreamRequest {
    open spec fn json_of(r: UpstreamRequestView) -> JsonView {
        let base = Map::<Seq<char>, JsonView>::empty()
            .insert("model"@, JsonView::Text(r.model))
            .insert(
            "input"@,
            <ResponsesInput as ToJson>::json_of(r.input),
        ).insert("stream"@, JsonView::Bool(r.stream));
        let told = crate::wire::with_text(base, "instructions"@, r.instructions);
        let tooled = crate::wire::with_list::<UpstreamTool>(told, "tools"@, r.tools);
        let chosen = crate::wire::with_json(tooled, "tool_choice"@, written_choice(r.tool_choice));
        let included = crate::wire::with_list::<String>(chosen, "include"@, r.include_fields);
        let warm = crate::wire::with_number(included, "temperature"@, r.temperature);
        let sampled = crate::wire::with_number(warm, "top_p"@, r.top_p);
        let limited = crate::wire::with_u64(sampled, "max_output_tokens"@, r.max_output_tokens);
        let truncated = crate::wire::with_text(limited, "truncation"@, r.truncation);
        let noted = crate::wire::with_json(truncated, "metadata"@, r.metadata);
        let serial = crate::wire::with_bool(noted, "parallel_tool_calls"@, r.parallel_tool_calls);
        JsonView::Object(
            serial.insert("cache_salt"@, crate::wire_items::text_or_null(r.cache_salt)),
        )
    }

    fn to_json(&self) -> (out: Json) {
        let mut fields = JsonObject::new();
        fields.set_str("model", self.model.as_str());
        fields.set("input", self.input.to_json());
        fields.set("stream", Json::Bool(self.stream));
        set_text(&mut fields, "instructions", &self.instructions);
        set_list::<UpstreamTool>(&mut fields, "tools", &self.tools);
        let choice = write_choice(&self.tool_choice);
        set_json(&mut fields, "tool_choice", &choice);
        set_list::<String>(&mut fields, "include", &self.include_fields);
        set_number(&mut fields, "temperature", &self.temperature);
        set_number(&mut fields, "top_p", &self.top_p);
        set_u64(&mut fields, "max_output_tokens", self.max_output_tokens);
        set_text(&mut fields, "truncation", &self.truncation);
        set_json(&mut fields, "metadata", &self.metadata);
        set_bool(&mut fields, "parallel_tool_calls", self.parallel_tool_calls);
        fields.set("cache_salt", text_or_null_json(&self.cache_salt));
        Json::Object(fields)
    }
}

/// The fields of what an upstream is sent, in order.
pub open spec fn upstream_names() -> Seq<Seq<char>> {
    seq![
        "model"@,
        "input"@,
        "stream"@,
        "instructions"@,
        "tools"@,
        "tool_choice"@,
        "include"@,
        "temperature"@,
        "top_p"@,
        "max_output_tokens"@,
        "truncation"@,
        "metadata"@,
        "parallel_tool_calls"@,
        "cache_salt"@,
    ]
}

impl UpstreamRequest {
    /// The request as JSON text, its fields in order. The fields of what it holds, such as
    /// an item of its input, are sorted by name.
    pub fn to_text(&self) -> (text: String)
        ensures
            text@ == crate::wire::record_text(
                crate::wire::picked(
                    upstream_names(),
                    <UpstreamRequest as ToJson>::json_of(self@)->Object_0,
                    14,
                ),
            ),
    {
        let names: Vec<&'static str> = vec![
            "model",
            "input",
            "stream",
            "instructions",
            "tools",
            "tool_choice",
            "include",
            "temperature",
            "top_p",
            "max_output_tokens",
            "truncation",
            "metadata",
            "parallel_tool_calls",
            "cache_salt",
        ];
        proof {
            assert(crate::data::views(names@) =~= upstream_names());
        }
        let fields = match self.to_json() {
            Json::Object(fields) => fields,
            _ => JsonObject::new(),
        };
        write_in_order(&names, &fields)
    }
}

/// The tokens that a response took, as JSON.
pub open spec fn usage_json(usage: ResponseUsage) -> JsonView {
    JsonView::Object(
        Map::<Seq<char>, JsonView>::empty().insert(
            "input_tokens"@,
            crate::wire::u64_json(usage.input_tokens),
        ).insert("output_tokens"@, crate::wire::u64_json(usage.output_tokens)).insert(
            "total_tokens"@,
            crate::wire::u64_json(usage.total_tokens),
        ).insert(
            "input_tokens_details"@,
            JsonView::Object(
                Map::<Seq<char>, JsonView>::empty().insert(
                    "cached_tokens"@,
                    crate::wire::u64_json(usage.cached_tokens),
                ),
            ),
        ).insert(
            "output_tokens_details"@,
            JsonView::Object(
                Map::<Seq<char>, JsonView>::empty().insert(
                    "reasoning_tokens"@,
                    crate::wire::u64_json(usage.reasoning_tokens),
                ),
            ),
        ),
    )
}

fn set_count(fields: &mut JsonObject, key: &str, n: u64)
    ensures
        final(fields)@ == old(fields)@.insert(key@, crate::wire::u64_json(n)),
{
    fields.set(key, Json::Number(JsonNumber::from_u64(n)));
}

/// The tokens that a response took, as JSON.
pub fn usage_to_json(usage: &ResponseUsage) -> (out: Json)
    ensures
        out@ == usage_json(*usage),
{
    let mut input_details = JsonObject::new();
    set_count(&mut input_details, "cached_tokens", usage.cached_tokens);
    let mut output_details = JsonObject::new();
    set_count(&mut output_details, "reasoning_tokens", usage.reasoning_tokens);
    let mut fields = JsonObject::new();
    set_count(&mut fields, "input_tokens", usage.input_tokens);
    set_count(&mut fields, "output_tokens", usage.output_tokens);
    set_count(&mut fields, "total_tokens", usage.total_tokens);
    fields.set("input_tokens_details", Json::Object(input_details));
    fields.set("output_tokens_details", Json::Object(output_details));
    Json::Object(fields)
}

/// A value, or null where there is none.
pub open spec fn or_null(value: Option<JsonView>) -> JsonView {
    match value {
        Some(v) => v,
        None => JsonView::Null,
    }
}

/// The tokens that a response took, or null.
pub open spec fn usage_or_null(usage: Option<ResponseUsage>) -> JsonView {
    match usage {
        Some(u) => usage_json(u),
        None => JsonView::Null,
    }
}

/// Why a response was interrupted, or null.
pub open spec fn details_or_null(details: Option<IncompleteDetailsView>) -> JsonView {
    match details {
        Some(d) => JsonView::Object(
            Map::<Seq<char>, JsonView>::empty().insert(
                "reason"@,
                crate::wire_items::text_or_null(d.reason),
            ),
        ),
        None => JsonView::Null,
    }
}

fn write_details(details: &Option<IncompleteDetails>) -> (out: Json)
    ensures
        out@ == details_or_null(crate::data::opt_view(*details)),
{
    match details {
        Some(d) => {
            let mut fields = JsonObject::new();
            fields.set("reason", text_or_null_json(&d.reason));
            Json::Object(fields)
        },
        None => Json::Null,
    }
}

/// The number of a time, as JSON.
pub open spec fn time_json(seconds: i64) -> JsonView {
    JsonView::Number(crate::json::integer_text(seconds as int))
}

impl ToJson for ResponsePayload {
    open spec fn json_of(r: ResponsePayloadView) -> JsonView {
        JsonView::Object(
            Map::<Seq<char>, JsonView>::empty().insert("id"@, JsonView::Text(r.id)).insert(
                "object"@,
                JsonView::Text(r.object),
            ).insert("created_at"@, time_json(r.created_at)).insert(
                "model"@,
                JsonView::Text(r.model),
            ).insert("status"@, JsonView::Text(r.status)).insert(
                "output"@,
                JsonView::Array(crate::wire::list_json::<OutputItem>(r.output)),
            ).insert("usage"@, usage_or_null(r.usage)).insert(
                "incomplete_details"@,
                details_or_null(r.incomplete_details),
            ).insert("error"@, or_null(r.error)).insert(
                "previous_response_id"@,
                crate::wire_items::text_or_null(r.previous_response_id),
            ).insert("conversation_id"@, crate::wire_items::text_or_null(r.conversation_id)).insert(
                "instructions"@,
                crate::wire_items::text_or_null(r.instructions),
            ),
        )
    }

    fn to_json(&self) -> (out: Json) {
        let mut fields = JsonObject::new();
        fields.set_str("id", self.id.as_str());
        fields.set_str("object", self.object.as_str());
        fields.set("created_at", Json::Number(JsonNumber::from_i64(self.created_at)));
        fields.set_str("model", self.model.as_str());
        fields.set_str("status", self.status.as_str());
        fields.set("output", write_list::<OutputItem>(&self.output));
        let usage = match &self.usage {
            Some(u) => usage_to_json(u),
            None => Json::Null,
        };
        fields.set("usage", usage);
        fields.set("incomplete_details", write_details(&self.incomplete_details));
        let error = match &self.error {
            Some(e) => e.copy(),
            None => Json::Null,
        };
        fields.set("error", error);
        fields.set("previous_response_id", text_or_null_json(&self.previous_response_id));
        fields.set("conversation_id", text_or_null_json(&self.conversation_id));
        fields.set("instructions", text_or_null_json(&self.instructions));
        Json::Object(fields)
    }
}

/// The fields of a response, in order.
pub open spec fn response_fields(r: ResponsePayloadView) -> Seq<(Seq<char>, JsonView)> {
    seq![
        ("id"@, JsonView::Text(r.id)),
        ("object"@, JsonView::Text(r.object)),
        ("created_at"@, time_json(r.created_at)),
        ("model"@, JsonView::Text(r.model)),
        ("status"@, JsonView::Text(r.status)),
        ("output"@, JsonView::Array(crate::wire::list_json::<OutputItem>(r.output))),
        ("usage"@, usage_or_null(r.usage)),
        ("incomplete_details"@, details_or_null(r.incomplete_details)),
        ("error"@, or_null(r.error)),
        ("previous_response_id"@, crate::wire_items::text_or_null(r.previous_response_id)),
        ("conversation_id"@, crate::wire_items::text_or_null(r.conversation_id)),
        ("instructions"@, crate::wire_items::text_or_null(r.instructions)),
    ]
}

impl ToJson for CompactedResponse {
    open spec fn json_of(r: CompactedResponseView) -> JsonView {
        JsonView::Object(
            Map::<Seq<char>, JsonView>::empty().insert("id"@, JsonView::Text(r.id)).insert(
                "object"@,
                JsonView::Text(r.object),
            ).insert("created_at"@, time_json(r.created_at)).insert(
                "output"@,
                JsonView::Array(crate::wire::list_json::<InputItem>(r.output)),
            ).insert("usage"@, usage_json(r.usage)),
        )
    }

    fn to_json(&self) -> (out: Json) {
        let mut fields = JsonObject::new();
        fields.set_str("id", self.id.as_str());
        fields.set_str("object", self.object.as_str());
        fields.set("created_at", Json::Number(JsonNumber::from_i64(self.created_at)));
        fields.set("output", write_list::<InputItem>(&self.output));
        fields.set("usage", usage_to_json(&self.usage));
        Json::Object(fields)
    }
}

/// The event that ends a stream with a status.
pub open spec fn terminal_event(status: Seq<char>) -> Seq<char> {
    if status == "incomplete"@ {
        "response.incomplete"@
    } else if status == "failed"@ || status == "error"@ {
        "response.failed"@
    } else if status == "in_progress"@ {
        "response.in_progress"@
    } else {
        "response.completed"@
    }
}

/// A chunk of a stream with the given data.
pub open spec fn chunk(data: JsonView) -> Seq<char> {
    "data: "@ + crate::json::json_text(data) + "\n\n"@
}

fn write_chunk(data: &Json) -> (text: String)
    ensures
        text@ == chunk(data@),
{
    let json = data.to_text();
    concat3("data: ", json.as_str(), "\n\n")
}

/// An event of a kind that carries a response.
pub open spec fn response_event(type_: Seq<char>, response: ResponsePayloadView) -> JsonView {
    JsonView::Object(
        Map::<Seq<char>, JsonView>::empty().insert("type"@, JsonView::Text(type_)).insert(
            "response"@,
            <ResponsePayload as ToJson>::json_of(response),
        ),
    )
}

fn make_response_event(type_: &str, response: &ResponsePayload) -> (out: Json)
    ensures
        out@ == response_event(type_@, response@),
{
    let mut fields = JsonObject::new();
    fields.set_str("type", type_);
    fields.set("response", response.to_json());
    Json::Object(fields)
}

impl ResponsePayload {
    /// The chunk that opens a stream: the response, in progress.
    pub fn as_created_response_chunk(&self) -> (text: String)
        ensures
            text@ == chunk(
                response_event(
                    "response.created"@,
                    ResponsePayloadView { status: "in_progress"@, ..self@ },
                ),
            ),
    {
        let mut response = self.copied();
        response.status = "in_progress".to_owned();
        let event = make_response_event("response.created", &response);
        write_chunk(&event)
    }

    /// The response as JSON text, its fields in order. The fields of what it holds, such as
    /// an item of its output, are sorted by name.
    pub fn to_text(&self) -> (text: String)
        ensures
            text@ == crate::wire::record_text(response_fields(self@)),
    {
        let usage = match &self.usage {
            Some(u) => usage_to_json(u),
            None => Json::Null,
        };
        let error = match &self.error {
            Some(e) => e.copy(),
            None => Json::Null,
        };
        let fields: Vec<(&'static str, Json)> = vec![
            ("id", Json::text(self.id.as_str())),
            ("object", Json::text(self.object.as_str())),
            ("created_at", Json::Number(JsonNumber::from_i64(self.created_at))),
            ("model", Json::text(self.model.as_str())),
            ("status", Json::text(self.status.as_str())),
            ("output", write_list::<OutputItem>(&self.output)),
            ("usage", usage),
            ("incomplete_details", write_details(&self.incomplete_details)),
            ("error", error),
            ("previous_response_id", text_or_null_json(&self.previous_response_id)),
            ("conversation_id", text_or_null_json(&self.conversation_id)),
            ("instructions", text_or_null_json(&self.instructions)),
        ];
        proof {
            assert(crate::wire::named_views(fields@) =~= response_fields(self@));
        }
        write_record(&fields)
    }

    /// The chunk of the response itself.
    pub fn as_responses_chunk(&self) -> (text: String)
        ensures
            text@ == "data: "@ + crate::wire::record_text(response_fields(self@)) + "\n\n"@,
    {
        let json = self.to_text();
        concat3("data: ", json.as_str(), "\n\n")
    }

    /// The chunk that ends a stream.
    pub fn as_terminal_response_chunk(&self) -> (text: String)
        ensures
            text@ == chunk(response_event(terminal_event(self@.status), self@)),
    {
        let event = make_response_event(self.terminal_event_type(), self);
        write_chunk(&event)
    }

    /// The kind of the event that ends a stream with this response's status.
    pub fn terminal_event_type(&self) -> (name: &'static str)
        ensures
            name@ == terminal_event(self@.status),
    {
        let status = self.status.as_str();
        if same_text(status, "incomplete") {
            "response.incomplete"
        } else if same_text(status, "failed") || same_text(status, "error") {
            "response.failed"
        } else if same_text(status, "in_progress") {
            "response.in_progress"
        } else {
            "response.completed"
        }
    }
}

} // verus!
