//! Events of a response stream.
use vstd::prelude::*;

#[allow(unused_imports)]
use crate::data::{copy_opt, same_opt, Data};
#[allow(unused_imports)]
use crate::json::{Json, JsonNumber, JsonObject, JsonView};
use crate::payload::ResponseUsage;
use crate::text::{byte_len, same_text, strip_prefix};
use crate::wire::{copy_without, read_non_empty_text, read_opt_u64, set_u64};
use crate::wire_items::read_text_or_empty;

verus! {

/// The kind of a stream event.
#[derive(Debug, Clone, Copy, PartialEq, Eq, Structural)]
pub enum SSEEventType {
    ResponseCreated,
    ResponseInProgress,
    ResponseCompleted,
    ResponseFailed,
    ResponseIncomplete,
    OutputItemAdded,
    OutputItemDone,
    ContentPartAdded,
    ContentPartDone,
    OutputTextDelta,
    OutputTextDone,
    ReasoningTextDelta,
    ReasoningTextDone,
    FunctionCallArgumentsDelta,
    FunctionCallArgumentsDone,
    CustomToolCallInputDelta,
    CustomToolCallInputDone,
    Other,
}

/// The kind of an output item that a stream event speaks of.
#[derive(Debug, Clone, Copy, PartialEq, Eq, Structural)]
pub enum SSEItemType {
    Message,
    Reasoning,
    FunctionCall,
    CustomToolCall,
    WebSearchCall,
    McpCall,
    McpListTools,
    ToolSearchCall,
    Compaction,
}

/// The wire name of an event kind; that of an event of another kind is in its wire
/// form alone.
pub open spec fn event_name(event_type: SSEEventType) -> Seq<char> {
    match event_type {
        SSEEventType::ResponseCreated => "response.created"@,
        SSEEventType::ResponseInProgress => "response.in_progress"@,
        SSEEventType::ResponseCompleted => "response.completed"@,
        SSEEventType::ResponseFailed => "response.failed"@,
        SSEEventType::ResponseIncomplete => "response.incomplete"@,
        SSEEventType::OutputItemAdded => "response.output_item.added"@,
        SSEEventType::OutputItemDone => "response.output_item.done"@,
        SSEEventType::ContentPartAdded => "response.content_part.added"@,
        SSEEventType::ContentPartDone => "response.content_part.done"@,
        SSEEventType::OutputTextDelta => "response.output_text.delta"@,
        SSEEventType::OutputTextDone => "response.output_text.done"@,
        SSEEventType::ReasoningTextDelta => "response.reasoning_text.delta"@,
        SSEEventType::ReasoningTextDone => "response.reasoning_text.done"@,
        SSEEventType::FunctionCallArgumentsDelta => "response.function_call_arguments.delta"@,
        SSEEventType::FunctionCallArgumentsDone => "response.function_call_arguments.done"@,
        SSEEventType::CustomToolCallInputDelta => "response.custom_tool_call_input.delta"@,
        SSEEventType::CustomToolCallInputDone => "response.custom_tool_call_input.done"@,
        SSEEventType::Other => Seq::empty(),
    }
}

/// The event kind of a wire name. `response.done` ends a response as
/// `response.completed` does.
pub open spec fn event_type_of(name: Seq<char>) -> SSEEventType {
    if name == "response.created"@ {
        SSEEventType::ResponseCreated
    } else if name == "response.in_progress"@ {
        SSEEventType::ResponseInProgress
    } else if name == "response.completed"@ {
        SSEEventType::ResponseCompleted
    } else if name == "response.failed"@ {
        SSEEventType::ResponseFailed
    } else if name == "response.incomplete"@ {
        SSEEventType::ResponseIncomplete
    } else if name == "response.output_item.added"@ {
        SSEEventType::OutputItemAdded
    } else if name == "response.output_item.done"@ {
        SSEEventType::OutputItemDone
    } else if name == "response.content_part.added"@ {
        SSEEventType::ContentPartAdded
    } else if name == "response.content_part.done"@ {
        SSEEventType::ContentPartDone
    } else if name == "response.output_text.delta"@ {
        SSEEventType::OutputTextDelta
    } else if name == "response.output_text.done"@ {
        SSEEventType::OutputTextDone
    } else if name == "response.reasoning_text.delta"@ {
        SSEEventType::ReasoningTextDelta
    } else if name == "response.reasoning_text.done"@ {
        SSEEventType::ReasoningTextDone
    } else if name == "response.function_call_arguments.delta"@ {
        SSEEventType::FunctionCallArgumentsDelta
    } else if name == "response.function_call_arguments.done"@ {
        SSEEventType::FunctionCallArgumentsDone
    } else if name == "response.custom_tool_call_input.delta"@ {
        SSEEventType::CustomToolCallInputDelta
    } else if name == "response.custom_tool_call_input.done"@ {
        SSEEventType::CustomToolCallInputDone
    } else if name == "response.done"@ {
        SSEEventType::ResponseCompleted
    } else {
        SSEEventType::Other
    }
}

impl SSEEventType {
    /// The wire name of this kind.
    pub fn as_str(self) -> (name: &'static str)
        ensures
            name@ == event_name(self),
    {
        proof {
            reveal_strlit("");
            assert(""@ =~= Seq::<char>::empty());
        }
        match self {
            SSEEventType::ResponseCreated => "response.created",
            SSEEventType::ResponseInProgress => "response.in_progress",
            SSEEventType::ResponseCompleted => "response.completed",
            SSEEventType::ResponseFailed => "response.failed",
            SSEEventType::ResponseIncomplete => "response.incomplete",
            SSEEventType::OutputItemAdded => "response.output_item.added",
            SSEEventType::OutputItemDone => "response.output_item.done",
            SSEEventType::ContentPartAdded => "response.content_part.added",
            SSEEventType::ContentPartDone => "response.content_part.done",
            SSEEventType::OutputTextDelta => "response.output_text.delta",
            SSEEventType::OutputTextDone => "response.output_text.done",
            SSEEventType::ReasoningTextDelta => "response.reasoning_text.delta",
            SSEEventType::ReasoningTextDone => "response.reasoning_text.done",
            SSEEventType::FunctionCallArgumentsDelta => "response.function_call_arguments.delta",
            SSEEventType::FunctionCallArgumentsDone => "response.function_call_arguments.done",
            SSEEventType::CustomToolCallInputDelta => "response.custom_tool_call_input.delta",
            SSEEventType::CustomToolCallInputDone => "response.custom_tool_call_input.done",
            SSEEventType::Other => "",
        }
    }

    /// The kind of a wire name.
    pub fn from_name(name: &str) -> (event_type: SSEEventType)
        ensures
            event_type == event_type_of(name@),
    {
        if same_text(name, "response.created") {
            SSEEventType::ResponseCreated
        } else if same_text(name, "response.in_progress") {
            SSEEventType::ResponseInProgress
        } else if same_text(name, "response.completed") {
            SSEEventType::ResponseCompleted
        } else if same_text(name, "response.failed") {
            SSEEventType::ResponseFailed
        } else if same_text(name, "response.incomplete") {
            SSEEventType::ResponseIncomplete
        } else if same_text(name, "response.output_item.added") {
            SSEEventType::OutputItemAdded
        } else if same_text(name, "response.output_item.done") {
            SSEEventType::OutputItemDone
        } else if same_text(name, "response.content_part.added") {
            SSEEventType::ContentPartAdded
        } else if same_text(name, "response.content_part.done") {
            SSEEventType::ContentPartDone
        } else if same_text(name, "response.output_text.delta") {
            SSEEventType::OutputTextDelta
        } else if same_text(name, "response.output_text.done") {
            SSEEventType::OutputTextDone
        } else if same_text(name, "response.reasoning_text.delta") {
            SSEEventType::ReasoningTextDelta
        } else if same_text(name, "response.reasoning_text.done") {
            SSEEventType::ReasoningTextDone
        } else if same_text(name, "response.function_call_arguments.delta") {
            SSEEventType::FunctionCallArgumentsDelta
        } else if same_text(name, "response.function_call_arguments.done") {
            SSEEventType::FunctionCallArgumentsDone
        } else if same_text(name, "response.custom_tool_call_input.delta") {
            SSEEventType::CustomToolCallInputDelta
        } else if same_text(name, "response.custom_tool_call_input.done") {
            SSEEventType::CustomToolCallInputDone
        } else if same_text(name, "response.done") {
            SSEEventType::ResponseCompleted
        } else {
            SSEEventType::Other
        }
    }
}

/// The item kind of a wire name; an item of another kind counts as a message.
pub open spec fn item_type_of(name: Seq<char>) -> SSEItemType {
    if name == "reasoning"@ {
        SSEItemType::Reasoning
    } else if name == "function_call"@ {
        SSEItemType::FunctionCall
    } else if name == "custom_tool_call"@ {
        SSEItemType::CustomToolCall
    } else if name == "web_search_call"@ {
        SSEItemType::WebSearchCall
    } else if name == "mcp_call"@ {
        SSEItemType::McpCall
    } else if name == "mcp_list_tools"@ {
        SSEItemType::McpListTools
    } else if name == "tool_search_call"@ {
        SSEItemType::ToolSearchCall
    } else if name == "compaction"@ {
        SSEItemType::Compaction
    } else {
        SSEItemType::Message
    }
}

impl SSEItemType {
    /// The kind of a wire name.
    pub fn from_name(name: &str) -> (item_type: SSEItemType)
        ensures
            item_type == item_type_of(name@),
    {
        if same_text(name, "reasoning") {
            SSEItemType::Reasoning
        } else if same_text(name, "function_call") {
            SSEItemType::FunctionCall
        } else if same_text(name, "custom_tool_call") {
            SSEItemType::CustomToolCall
        } else if same_text(name, "web_search_call") {
            SSEItemType::WebSearchCall
        } else if same_text(name, "mcp_call") {
            SSEItemType::McpCall
        } else if same_text(name, "mcp_list_tools") {
            SSEItemType::McpListTools
        } else if same_text(name, "tool_search_call") {
            SSEItemType::ToolSearchCall
        } else if same_text(name, "compaction") {
            SSEItemType::Compaction
        } else {
            SSEItemType::Message
        }
    }
}

/// What a stream event says.
#[derive(Debug, Clone, PartialEq)]
pub enum EventPayload {
    OutputItemAdded {
        item_id: String,
        item_type: SSEItemType,
        output_index: u32,
        name: Option<String>,
        namespace: Option<String>,
        call_id: Option<String>,
        execution: Option<String>,
        status: Option<String>,
        arguments: Option<Json>,
    },
    OutputItemDone { item_id: String, item_type: SSEItemType, output_index: u32, item: Json },
    TextDelta { delta: String, item_id: String, output_index: u32, content_index: u32 },
    TextDone { text: String, item_id: String, output_index: u32, content_index: u32 },
    ReasoningDelta { delta: String, item_id: String },
    ReasoningDone { text: String, item_id: String },
    FunctionCallArgsDelta {
        delta: String,
        call_id: Option<String>,
        item_id: String,
        output_index: u32,
    },
    FunctionCallArgsDone {
        arguments: String,
        call_id: Option<String>,
        item_id: String,
        name: String,
        output_index: u32,
    },
    CustomToolCallInputDelta { delta: String, item_id: String, output_index: u32 },
    CustomToolCallInputDone { input: String, item_id: String, output_index: u32 },
    Response { id: String, status: String, usage: Option<ResponseUsage> },
    Raw(Json),
    Empty,
}

/// The view of a [`EventPayload`].
#[verifier::ext_equal]
pub enum EventPayloadView {
    OutputItemAdded {
        item_id: Seq<char>,
        item_type: SSEItemType,
        output_index: u32,
        name: Option<Seq<char>>,
        namespace: Option<Seq<char>>,
        call_id: Option<Seq<char>>,
        execution: Option<Seq<char>>,
        status: Option<Seq<char>>,
        arguments: Option<JsonView>,
    },
    OutputItemDone {
        item_id: Seq<char>,
        item_type: SSEItemType,
        output_index: u32,
        item: JsonView,
    },
    TextDelta { delta: Seq<char>, item_id: Seq<char>, output_index: u32, content_index: u32 },
    TextDone { text: Seq<char>, item_id: Seq<char>, output_index: u32, content_index: u32 },
    ReasoningDelta { delta: Seq<char>, item_id: Seq<char> },
    ReasoningDone { text: Seq<char>, item_id: Seq<char> },
    FunctionCallArgsDelta {
        delta: Seq<char>,
        call_id: Option<Seq<char>>,
        item_id: Seq<char>,
        output_index: u32,
    },
    FunctionCallArgsDone {
        arguments: Seq<char>,
        call_id: Option<Seq<char>>,
        item_id: Seq<char>,
        name: Seq<char>,
        output_index: u32,
    },
    CustomToolCallInputDelta { delta: Seq<char>, item_id: Seq<char>, output_index: u32 },
    CustomToolCallInputDone { input: Seq<char>, item_id: Seq<char>, output_index: u32 },
    Response { id: Seq<char>, status: Seq<char>, usage: Option<ResponseUsage> },
    Raw(JsonView),
    Empty,
}

impl View for EventPayload {
    type V = EventPayloadView;

    open spec fn view(&self) -> EventPayloadView {
        match *self {
            EventPayload::OutputItemAdded {
                item_id,
                item_type,
                output_index,
                name,
                namespace,
                call_id,
                execution,
                status,
                arguments,
            } => EventPayloadView::OutputItemAdded {
                item_id: item_id@,
                item_type: item_type,
                output_index: output_index,
                name: crate::data::opt_view(name),
                namespace: crate::data::opt_view(namespace),
                call_id: crate::data::opt_view(call_id),
                execution: crate::data::opt_view(execution),
                status: crate::data::opt_view(status),
                arguments: crate::data::opt_view(arguments),
            },
            EventPayload::OutputItemDone {
                item_id,
                item_type,
                output_index,
                item,
            } => EventPayloadView::OutputItemDone {
                item_id: item_id@,
                item_type: item_type,
                output_index: output_index,
                item: item@,
            },
            EventPayload::TextDelta {
                delta,
                item_id,
                output_index,
                content_index,
            } => EventPayloadView::TextDelta {
                delta: delta@,
                item_id: item_id@,
                output_index: output_index,
                content_index: content_index,
            },
            EventPayload::TextDone {
                text,
                item_id,
                output_index,
                content_index,
            } => EventPayloadView::TextDone {
                text: text@,
                item_id: item_id@,
                output_index: output_index,
                content_index: content_index,
            },
            EventPayload::ReasoningDelta { delta, item_id } => EventPayloadView::ReasoningDelta {
                delta: delta@,
                item_id: item_id@,
            },
            EventPayload::ReasoningDone { text, item_id } => EventPayloadView::ReasoningDone {
                text: text@,
                item_id: item_id@,
            },
            EventPayload::FunctionCallArgsDelta {
                delta,
                call_id,
                item_id,
                output_index,
            } => EventPayloadView::FunctionCallArgsDelta {
                delta: delta@,
                call_id: crate::data::opt_view(call_id),
                item_id: item_id@,
                output_index: output_index,
            },
            EventPayload::FunctionCallArgsDone {
                arguments,
                call_id,
                item_id,
                name,
                output_index,
            } => EventPayloadView::FunctionCallArgsDone {
                arguments: arguments@,
                call_id: crate::data::opt_view(call_id),
                item_id: item_id@,
                name: name@,
                output_index: output_index,
            },
            EventPayload::CustomToolCallInputDelta {
                delta,
                item_id,
                output_index,
            } => EventPayloadView::CustomToolCallInputDelta {
                delta: delta@,
                item_id: item_id@,
                output_index: output_index,
            },
            EventPayload::CustomToolCallInputDone {
                input,
                item_id,
                output_index,
            } => EventPayloadView::CustomToolCallInputDone {
                input: input@,
                item_id: item_id@,
                output_index: output_index,
            },
            EventPayload::Response { id, status, usage } => EventPayloadView::Response {
                id: id@,
                status: status@,
                usage: usage,
            },
            EventPayload::Raw(x) => EventPayloadView::Raw(x@),
            EventPayload::Empty => EventPayloadView::Empty,
        }
    }
}

impl Data for EventPayload {
    fn copied(&self) -> (out: EventPayload) {
        match self {
            EventPayload::OutputItemAdded {
                item_id,
                item_type,
                output_index,
                name,
                namespace,
                call_id,
                execution,
                status,
                arguments,
            } => EventPayload::OutputItemAdded {
                item_id: item_id.copied(),
                item_type: *item_type,
                output_index: *output_index,
                name: copy_opt(name),
                namespace: copy_opt(namespace),
                call_id: copy_opt(call_id),
                execution: copy_opt(execution),
                status: copy_opt(status),
                arguments: copy_opt(arguments),
            },
            EventPayload::OutputItemDone {
                item_id,
                item_type,
                output_index,
                item,
            } => EventPayload::OutputItemDone {
                item_id: item_id.copied(),
                item_type: *item_type,
                output_index: *output_index,
                item: item.copied(),
            },
            EventPayload::TextDelta {
                delta,
                item_id,
                output_index,
                content_index,
            } => EventPayload::TextDelta {
                delta: delta.copied(),
                item_id: item_id.copied(),
                output_index: *output_index,
                content_index: *content_index,
            },
            EventPayload::TextDone {
                text,
                item_id,
                output_index,
                content_index,
            } => EventPayload::TextDone {
                text: text.copied(),
                item_id: item_id.copied(),
                output_index: *output_index,
                content_index: *content_index,
            },
            EventPayload::ReasoningDelta { delta, item_id } => EventPayload::ReasoningDelta {
                delta: delta.copied(),
                item_id: item_id.copied(),
            },
            EventPayload::ReasoningDone { text, item_id } => EventPayload::ReasoningDone {
                text: text.copied(),
                item_id: item_id.copied(),
            },
            EventPayload::FunctionCallArgsDelta {
                delta,
                call_id,
                item_id,
                output_index,
            } => EventPayload::FunctionCallArgsDelta {
                delta: delta.copied(),
                call_id: copy_opt(call_id),
                item_id: item_id.copied(),
                output_index: *output_index,
            },
            EventPayload::FunctionCallArgsDone {
                arguments,
                call_id,
                item_id,
                name,
                output_index,
            } => EventPayload::FunctionCallArgsDone {
                arguments: arguments.copied(),
                call_id: copy_opt(call_id),
                item_id: item_id.copied(),
                name: name.copied(),
                output_index: *output_index,
            },
            EventPayload::CustomToolCallInputDelta {
                delta,
                item_id,
                output_index,
            } => EventPayload::CustomToolCallInputDelta {
                delta: delta.copied(),
                item_id: item_id.copied(),
                output_index: *output_index,
            },
            EventPayload::CustomToolCallInputDone {
                input,
                item_id,
                output_index,
            } => EventPayload::CustomToolCallInputDone {
                input: input.copied(),
                item_id: item_id.copied(),
                output_index: *output_index,
            },
            EventPayload::Response { id, status, usage } => EventPayload::Response {
                id: id.copied(),
                status: status.copied(),
                usage: *usage,
            },
            EventPayload::Raw(x) => EventPayload::Raw(x.copied()),
            EventPayload::Empty => EventPayload::Empty,
        }
    }

    fn same(&self, other: &EventPayload) -> (yes: bool) {
        match (self, other) {
            (
                EventPayload::OutputItemAdded {
                    item_id: a_item_id,
                    item_type: a_item_type,
                    output_index: a_output_index,
                    name: a_name,
                    namespace: a_namespace,
                    call_id: a_call_id,
                    execution: a_execution,
                    status: a_status,
                    arguments: a_arguments,
                },
                EventPayload::OutputItemAdded {
                    item_id: b_item_id,
                    item_type: b_item_type,
                    output_index: b_output_index,
                    name: b_name,
                    namespace: b_namespace,
                    call_id: b_call_id,
                    execution: b_execution,
                    status: b_status,
                    arguments: b_arguments,
                },
            ) => {
                a_item_id.same(b_item_id)
                && *a_item_type == *b_item_type
                && *a_output_index == *b_output_index
                && same_opt(a_name, b_name)
                && same_opt(a_namespace, b_namespace)
                && same_opt(a_call_id, b_call_id)
                && same_opt(a_execution, b_execution)
                && same_opt(a_status, b_status)
                && same_opt(a_arguments, b_arguments)
            },
            (
                EventPayload::OutputItemDone {
                    item_id: a_item_id,
                    item_type: a_item_type,
                    output_index: a_output_index,
                    item: a_item,
                },
                EventPayload::OutputItemDone {
                    item_id: b_item_id,
                    item_type: b_item_type,
                    output_index: b_output_index,
                    item: b_item,
                },
            ) => {
                a_item_id.same(b_item_id)
                && *a_item_type == *b_item_type
                && *a_output_index == *b_output_index
                && a_item.same(b_item)
            },
            (
                EventPayload::TextDelta {
                    delta: a_delta,
                    item_id: a_item_id,
                    output_index: a_output_index,
                    content_index: a_content_index,
                },
                EventPayload::TextDelta {
                    delta: b_delta,
                    item_id: b_item_id,
                    output_index: b_output_index,
                    content_index: b_content_index,
                },
            ) => {
                a_delta.same(b_delta)
                && a_item_id.same(b_item_id)
                && *a_output_index == *b_output_index
                && *a_content_index == *b_content_index
            },
            (
                EventPayload::TextDone {
                    text: a_text,
                    item_id: a_item_id,
                    output_index: a_output_index,
                    content_index: a_content_index,
                },
                EventPayload::TextDone {
                    text: b_text,
                    item_id: b_item_id,
                    output_index: b_output_index,
                    content_index: b_content_index,
                },
            ) => {
                a_text.same(b_text)
                && a_item_id.same(b_item_id)
                && *a_output_index == *b_output_index
                && *a_content_index == *b_content_index
            },
            (
                EventPayload::ReasoningDelta { delta: a_delta, item_id: a_item_id },
                EventPayload::ReasoningDelta { delta: b_delta, item_id: b_item_id },
            ) => {
                a_delta.same(b_delta)
                && a_item_id.same(b_item_id)
            },
            (
                EventPayload::ReasoningDone { text: a_text, item_id: a_item_id },
                EventPayload::ReasoningDone { text: b_text, item_id: b_item_id },
            ) => {
                a_text.same(b_text)
                && a_item_id.same(b_item_id)
            },
            (
                EventPayload::FunctionCallArgsDelta {
                    delta: a_delta,
                    call_id: a_call_id,
                    item_id: a_item_id,
                    output_index: a_output_index,
                },
                EventPayload::FunctionCallArgsDelta {
                    delta: b_delta,
                    call_id: b_call_id,
                    item_id: b_item_id,
                    output_index: b_output_index,
                },
            ) => {
                a_delta.same(b_delta)
                && same_opt(a_call_id, b_call_id)
                && a_item_id.same(b_item_id)
                && *a_output_index == *b_output_index
            },
            (
                EventPayload::FunctionCallArgsDone {
                    arguments: a_arguments,
                    call_id: a_call_id,
                    item_id: a_item_id,
                    name: a_name,
                    output_index: a_output_index,
                },
                EventPayload::FunctionCallArgsDone {
                    arguments: b_arguments,
                    call_id: b_call_id,
                    item_id: b_item_id,
                    name: b_name,
                    output_index: b_output_index,
                },
            ) => {
                a_arguments.same(b_arguments)
                && same_opt(a_call_id, b_call_id)
                && a_item_id.same(b_item_id)
                && a_name.same(b_name)
                && *a_output_index == *b_output_index
            },
            (
                EventPayload::CustomToolCallInputDelta {
                    delta: a_delta,
                    item_id: a_item_id,
                    output_index: a_output_index,
                },
                EventPayload::CustomToolCallInputDelta {
                    delta: b_delta,
                    item_id: b_item_id,
                    output_index: b_output_index,
                },
            ) => {
                a_delta.same(b_delta)
                && a_item_id.same(b_item_id)
                && *a_output_index == *b_output_index
            },
            (
                EventPayload::CustomToolCallInputDone {
                    input: a_input,
                    item_id: a_item_id,
                    output_index: a_output_index,
                },
                EventPayload::CustomToolCallInputDone {
                    input: b_input,
                    item_id: b_item_id,
                    output_index: b_output_index,
                },
            ) => {
                a_input.same(b_input)
                && a_item_id.same(b_item_id)
                && *a_output_index == *b_output_index
            },
            (
                EventPayload::Response { id: a_id, status: a_status, usage: a_usage },
                EventPayload::Response { id: b_id, status: b_status, usage: b_usage },
            ) => {
                a_id.same(b_id)
                && a_status.same(b_status)
                && *a_usage == *b_usage
            },
            (EventPayload::Raw(a), EventPayload::Raw(b)) => a.same(b),
            (EventPayload::Empty, EventPayload::Empty) => true,
            _ => false,
        }
    }
}

/// A stream event as it is on the wire: its name, its places, and its other fields.
#[derive(Debug, Clone, PartialEq)]
pub struct WireEvent {
    pub event_type: String,
    pub output_index: Option<u64>,
    pub sequence_number: Option<u64>,
    pub rest: JsonObject,
}

/// The view of a [`WireEvent`].
#[verifier::ext_equal]
pub struct WireEventView {
    pub event_type: Seq<char>,
    pub output_index: Option<u64>,
    pub sequence_number: Option<u64>,
    pub rest: Map<Seq<char>, JsonView>,
}

impl View for WireEvent {
    type V = WireEventView;

    open spec fn view(&self) -> WireEventView {
        WireEventView {
            event_type: self.event_type@,
            output_index: self.output_index,
            sequence_number: self.sequence_number,
            rest: self.rest@,
        }
    }
}

impl Data for WireEvent {
    fn copied(&self) -> (out: WireEvent) {
        WireEvent {
            event_type: self.event_type.copied(),
            output_index: self.output_index,
            sequence_number: self.sequence_number,
            rest: self.rest.copied(),
        }
    }

    fn same(&self, other: &WireEvent) -> (yes: bool) {
        self.event_type.same(&other.event_type)
            && self.output_index == other.output_index
            && self.sequence_number == other.sequence_number
            && self.rest.same(&other.rest)
    }
}

/// A stream event, parsed and as it is on the wire.
#[derive(Debug, Clone, PartialEq)]
pub struct EventFrame {
    pub event_type: SSEEventType,
    pub payload: EventPayload,
    pub wire: WireEvent,
}

/// The view of a [`EventFrame`].
#[verifier::ext_equal]
pub struct EventFrameView {
    pub event_type: SSEEventType,
    pub payload: EventPayloadView,
    pub wire: WireEventView,
}

impl View for EventFrame {
    type V = EventFrameView;

    open spec fn view(&self) -> EventFrameView {
        EventFrameView {
            event_type: self.event_type,
            payload: self.payload@,
            wire: self.wire@,
        }
    }
}

impl Data for EventFrame {
    fn copied(&self) -> (out: EventFrame) {
        EventFrame {
            event_type: self.event_type,
            payload: self.payload.copied(),
            wire: self.wire.copied(),
        }
    }

    fn same(&self, other: &EventFrame) -> (yes: bool) {
        self.event_type == other.event_type
            && self.payload.same(&other.payload)
            && self.wire.same(&other.wire)
    }
}

/// The fields of a wire event.
pub open spec fn wire_fields(wire: WireEventView) -> Map<Seq<char>, JsonView> {
    crate::wire::with_u64(
        crate::wire::with_u64(
            wire.rest.insert("type"@, JsonView::Text(wire.event_type)),
            "output_index"@,
            wire.output_index,
        ),
        "sequence_number"@,
        wire.sequence_number,
    )
}

/// The number of bytes of a wire event's JSON text.
pub open spec fn wire_bytes(wire: WireEventView) -> nat {
    vstd::utf8::encode_utf8(crate::json::json_text(JsonView::Object(wire_fields(wire)))).len()
}

impl WireEvent {
    /// An event with nothing but its name.
    pub fn new(event_type: &str) -> (wire: WireEvent)
        ensures
            wire@ == (WireEventView {
                event_type: event_type@,
                output_index: None,
                sequence_number: None,
                rest: Map::empty(),
            }),
    {
        WireEvent {
            event_type: event_type.to_owned(),
            output_index: None,
            sequence_number: None,
            rest: JsonObject::new(),
        }
    }

    /// The event as JSON.
    pub fn to_json(&self) -> (out: Json)
        ensures
            out@ == JsonView::Object(wire_fields(self@)),
    {
        let mut fields = self.rest.copied();
        fields.set_str("type", self.event_type.as_str());
        set_u64(&mut fields, "output_index", self.output_index);
        set_u64(&mut fields, "sequence_number", self.sequence_number);
        Json::Object(fields)
    }

    /// The number of bytes of the event's JSON text.
    pub fn json_bytes(&self) -> (n: usize)
        ensures
            n == wire_bytes(self@),
    {
        let text = self.to_json().to_text();
        byte_len(text.as_str())
    }
}

/// An unsigned integer field, where there is one.
pub open spec fn u64_field(fields: Map<Seq<char>, JsonView>, key: Seq<char>) -> Option<u64> {
    match crate::wire::opt_u64(fields, key) {
        Some(v) => v,
        None => None,
    }
}

/// Reads an unsigned integer field, where there is one.
pub fn read_u64(fields: &JsonObject, key: &str) -> (out: Option<u64>)
    ensures
        out == u64_field(fields@, key@),
{
    match read_opt_u64(fields, key) {
        Some(v) => v,
        None => None,
    }
}

/// A place among the output items; the first where none is given.
pub open spec fn place_of(fields: Map<Seq<char>, JsonView>, key: Seq<char>) -> u32 {
    match u64_field(fields, key) {
        Some(v) => if v <= u32::MAX {
            v as u32
        } else {
            0
        },
        None => 0,
    }
}

fn read_place(fields: &JsonObject, key: &str) -> (out: u32)
    ensures
        out == place_of(fields@, key@),
{
    match read_u64(fields, key) {
        Some(v) => if v <= u32::MAX as u64 {
            v as u32
        } else {
            0
        },
        None => 0,
    }
}

/// The fields of an object field; none where it is absent or no object.
pub open spec fn object_at(
    fields: Map<Seq<char>, JsonView>,
    key: Seq<char>,
) -> Map<Seq<char>, JsonView> {
    match crate::json::object_field(fields, key) {
        Some(JsonView::Object(o)) => o,
        _ => Map::empty(),
    }
}

fn read_object_at(fields: &JsonObject, key: &str) -> (out: JsonObject)
    ensures
        out@ == object_at(fields@, key@),
{
    match fields.get(key) {
        Some(Json::Object(o)) => o.copy(),
        _ => JsonObject::new(),
    }
}

/// A text field, where it is there.
fn read_text(fields: &JsonObject, key: &str) -> (out: Option<String>)
    ensures
        crate::data::opt_view(out) == crate::json::text_field(fields@, key@),
{
    match fields.get_str(key) {
        Some(t) => Some(t.to_owned()),
        None => None,
    }
}

/// The tokens that a response took, where its fields give any.
pub open spec fn usage_of(value: Option<JsonView>) -> Option<ResponseUsage> {
    match value {
        Some(JsonView::Object(fields)) => match (
            u64_field(fields, "input_tokens"@),
            u64_field(fields, "output_tokens"@),
            u64_field(fields, "total_tokens"@),
        ) {
            (Some(input_tokens), Some(output_tokens), Some(total_tokens)) => Some(
                ResponseUsage {
                    input_tokens,
                    output_tokens,
                    total_tokens,
                    cached_tokens: count_of(
                        object_at(fields, "input_tokens_details"@),
                        "cached_tokens"@,
                    ),
                    reasoning_tokens: count_of(
                        object_at(fields, "output_tokens_details"@),
                        "reasoning_tokens"@,
                    ),
                },
            ),
            _ => None,
        },
        _ => None,
    }
}

/// A count; zero where none is given.
pub open spec fn count_of(fields: Map<Seq<char>, JsonView>, key: Seq<char>) -> u64 {
    match u64_field(fields, key) {
        Some(v) => v,
        None => 0,
    }
}

fn read_count(fields: &JsonObject, key: &str) -> (out: u64)
    ensures
        out == count_of(fields@, key@),
{
    match read_u64(fields, key) {
        Some(v) => v,
        None => 0,
    }
}

/// The tokens that a response took, where its fields give any.
pub fn read_usage(value: Option<&Json>) -> (out: Option<ResponseUsage>)
    ensures
        out == usage_of(crate::json::ref_view(value)),
{
    match value {
        Some(Json::Object(fields)) => match (
            read_u64(fields, "input_tokens"),
            read_u64(fields, "output_tokens"),
            read_u64(fields, "total_tokens"),
        ) {
            (Some(input_tokens), Some(output_tokens), Some(total_tokens)) => {
                let input_details = read_object_at(fields, "input_tokens_details");
                let output_details = read_object_at(fields, "output_tokens_details");
                Some(
                    ResponseUsage {
                        input_tokens,
                        output_tokens,
                        total_tokens,
                        cached_tokens: read_count(&input_details, "cached_tokens"),
                        reasoning_tokens: read_count(&output_details, "reasoning_tokens"),
                    },
                )
            },
            _ => None,
        },
        _ => None,
    }
}

/// What the event that adds an item says.
pub open spec fn added_payload(fields: Map<Seq<char>, JsonView>) -> EventPayloadView {
    let item = object_at(fields, "item"@);
    EventPayloadView::OutputItemAdded {
        item_id: crate::wire::text_or(item, "id"@, Seq::empty()),
        item_type: item_type_of(crate::wire::text_or(item, "type"@, Seq::empty())),
        output_index: place_of(fields, "output_index"@),
        name: crate::wire::non_empty_text(item, "name"@),
        namespace: crate::json::text_field(item, "namespace"@),
        call_id: crate::json::text_field(item, "call_id"@),
        execution: crate::json::text_field(item, "execution"@),
        status: crate::json::text_field(item, "status"@),
        arguments: crate::json::object_field(item, "arguments"@),
    }
}

/// What the event that an item is done says.
pub open spec fn done_payload(fields: Map<Seq<char>, JsonView>) -> EventPayloadView {
    let item = object_at(fields, "item"@);
    EventPayloadView::OutputItemDone {
        item_id: crate::wire::text_or(item, "id"@, Seq::empty()),
        item_type: item_type_of(crate::wire::text_or(item, "type"@, Seq::empty())),
        output_index: place_of(fields, "output_index"@),
        item: JsonView::Object(item),
    }
}

/// What an event of a kind says, read from its fields.
pub open spec fn payload_of(
    event_type: SSEEventType,
    fields: Map<Seq<char>, JsonView>,
) -> EventPayloadView {
    let item_id = crate::wire::text_or(fields, "item_id"@, Seq::empty());
    let output_index = place_of(fields, "output_index"@);
    let content_index = place_of(fields, "content_index"@);
    let delta = crate::wire::text_or(fields, "delta"@, Seq::empty());
    let text = crate::wire::text_or(fields, "text"@, Seq::empty());
    match event_type {
        SSEEventType::ResponseCreated | SSEEventType::ResponseInProgress
        | SSEEventType::ResponseCompleted | SSEEventType::ResponseFailed
        | SSEEventType::ResponseIncomplete => {
            let response = object_at(fields, "response"@);
            EventPayloadView::Response {
                id: crate::wire::text_or(response, "id"@, Seq::empty()),
                status: crate::wire::text_or(response, "status"@, Seq::empty()),
                usage: usage_of(crate::json::object_field(response, "usage"@)),
            }
        },
        SSEEventType::OutputItemAdded => added_payload(fields),
        SSEEventType::OutputItemDone => done_payload(fields),
        SSEEventType::OutputTextDelta => EventPayloadView::TextDelta {
            delta,
            item_id,
            output_index,
            content_index,
        },
        SSEEventType::OutputTextDone => EventPayloadView::TextDone {
            text,
            item_id,
            output_index,
            content_index,
        },
        SSEEventType::ReasoningTextDelta => EventPayloadView::ReasoningDelta { delta, item_id },
        SSEEventType::ReasoningTextDone => EventPayloadView::ReasoningDone { text, item_id },
        SSEEventType::FunctionCallArgumentsDelta => EventPayloadView::FunctionCallArgsDelta {
            delta,
            call_id: crate::json::text_field(fields, "call_id"@),
            item_id,
            output_index,
        },
        SSEEventType::FunctionCallArgumentsDone => EventPayloadView::FunctionCallArgsDone {
            arguments: crate::wire::text_or(fields, "arguments"@, Seq::empty()),
            call_id: crate::json::text_field(fields, "call_id"@),
            item_id,
            name: crate::wire::text_or(fields, "name"@, Seq::empty()),
            output_index,
        },
        SSEEventType::CustomToolCallInputDelta => EventPayloadView::CustomToolCallInputDelta {
            delta,
            item_id,
            output_index,
        },
        SSEEventType::CustomToolCallInputDone => EventPayloadView::CustomToolCallInputDone {
            input: crate::wire::text_or(fields, "input"@, Seq::empty()),
            item_id,
            output_index,
        },
        SSEEventType::ContentPartAdded | SSEEventType::ContentPartDone | SSEEventType::Other =>
        EventPayloadView::Raw(JsonView::Object(fields)),
    }
}

fn read_added_payload(fields: &JsonObject) -> (out: EventPayload)
    ensures
        out@ == added_payload(fields@),
{
    let item = read_object_at(fields, "item");
    let item_type = read_text_or_empty(&item, "type");
    EventPayload::OutputItemAdded {
        item_id: read_text_or_empty(&item, "id"),
        item_type: SSEItemType::from_name(item_type.as_str()),
        output_index: read_place(fields, "output_index"),
        name: read_non_empty_text(&item, "name"),
        namespace: read_text(&item, "namespace"),
        call_id: read_text(&item, "call_id"),
        execution: read_text(&item, "execution"),
        status: read_text(&item, "status"),
        arguments: match item.get("arguments") {
            Some(v) => Some(v.copy()),
            None => None,
        },
    }
}

fn read_done_payload(fields: &JsonObject) -> (out: EventPayload)
    ensures
        out@ == done_payload(fields@),
{
    let item = read_object_at(fields, "item");
    let item_type = read_text_or_empty(&item, "type");
    EventPayload::OutputItemDone {
        item_id: read_text_or_empty(&item, "id"),
        item_type: SSEItemType::from_name(item_type.as_str()),
        output_index: read_place(fields, "output_index"),
        item: Json::Object(item),
    }
}

/// What an event of a kind says, read from its fields.
pub fn read_payload(event_type: SSEEventType, fields: &JsonObject) -> (out: EventPayload)
    ensures
        out@ == payload_of(event_type, fields@),
{
    let item_id = read_text_or_empty(fields, "item_id");
    let output_index: u32 = read_place(fields, "output_index");
    let content_index: u32 = read_place(fields, "content_index");
    let delta = read_text_or_empty(fields, "delta");
    let text = read_text_or_empty(fields, "text");
    match event_type {
        SSEEventType::ResponseCreated | SSEEventType::ResponseInProgress
        | SSEEventType::ResponseCompleted | SSEEventType::ResponseFailed
        | SSEEventType::ResponseIncomplete => {
            let response = read_object_at(fields, "response");
            EventPayload::Response {
                id: read_text_or_empty(&response, "id"),
                status: read_text_or_empty(&response, "status"),
                usage: read_usage(response.get("usage")),
            }
        },
        SSEEventType::OutputItemAdded => read_added_payload(fields),
        SSEEventType::OutputItemDone => read_done_payload(fields),
        SSEEventType::OutputTextDelta => EventPayload::TextDelta {
            delta,
            item_id,
            output_index,
            content_index,
        },
        SSEEventType::OutputTextDone => EventPayload::TextDone {
            text,
            item_id,
            output_index,
            content_index,
        },
        SSEEventType::ReasoningTextDelta => EventPayload::ReasoningDelta { delta, item_id },
        SSEEventType::ReasoningTextDone => EventPayload::ReasoningDone { text, item_id },
        SSEEventType::FunctionCallArgumentsDelta => EventPayload::FunctionCallArgsDelta {
            delta,
            call_id: read_text(fields, "call_id"),
            item_id,
            output_index,
        },
        SSEEventType::FunctionCallArgumentsDone => EventPayload::FunctionCallArgsDone {
            arguments: read_text_or_empty(fields, "arguments"),
            call_id: read_text(fields, "call_id"),
            item_id,
            name: read_text_or_empty(fields, "name"),
            output_index,
        },
        SSEEventType::CustomToolCallInputDelta => EventPayload::CustomToolCallInputDelta {
            delta,
            item_id,
            output_index,
        },
        SSEEventType::CustomToolCallInputDone => EventPayload::CustomToolCallInputDone {
            input: read_text_or_empty(fields, "input"),
            item_id,
            output_index,
        },
        SSEEventType::ContentPartAdded | SSEEventType::ContentPartDone | SSEEventType::Other =>
        EventPayload::Raw(Json::Object(fields.copy())),
    }
}

/// The event that a JSON value is: an object with a text field `type`.
pub open spec fn frame_of(value: Option<JsonView>) -> Option<EventFrameView> {
    match value {
        Some(JsonView::Object(fields)) => match crate::json::text_field(fields, "type"@) {
            Some(name) => Some(
                EventFrameView {
                    event_type: event_type_of(name),
                    payload: payload_of(event_type_of(name), fields),
                    wire: WireEventView {
                        event_type: name,
                        output_index: u64_field(fields, "output_index"@),
                        sequence_number: u64_field(fields, "sequence_number"@),
                        rest: crate::wire::without(
                            fields,
                            seq!["type"@, "output_index"@, "sequence_number"@],
                        ),
                    },
                },
            ),
            None => None,
        },
        _ => None,
    }
}

/// The event that a JSON value is.
pub fn frame_from_json(value: &Option<Json>) -> (out: Option<EventFrame>)
    ensures
        crate::data::opt_view(out) == frame_of(crate::data::opt_view(*value)),
{
    let fields = match value {
        Some(Json::Object(fields)) => fields,
        _ => {
            return None;
        },
    };
    let name = match fields.get_str("type") {
        Some(name) => name,
        None => {
            return None;
        },
    };
    let event_type = SSEEventType::from_name(name);
    let keys: Vec<&'static str> = vec!["type", "output_index", "sequence_number"];
    let rest = copy_without(fields, &keys);
    proof {
        assert(keys@.map_values(|k: &'static str| k@) =~= seq![
            "type"@,
            "output_index"@,
            "sequence_number"@,
        ]);
    }
    Some(
        EventFrame {
            event_type,
            payload: read_payload(event_type, fields),
            wire: WireEvent {
                event_type: name.to_owned(),
                output_index: read_u64(fields, "output_index"),
                sequence_number: read_u64(fields, "sequence_number"),
                rest,
            },
        },
    )
}

/// The event that a line of the stream carries, where what the line's data parses
/// to is `parsed_json` of it.
pub open spec fn line_frame(line: Seq<char>) -> Option<EventFrameView> {
    if crate::text::has_prefix(line, "data: "@) {
        frame_of(crate::json::parsed_json(line.skip("data: "@.len() as int)))
    } else {
        None
    }
}

/// The event that a line of the stream carries; none for any other line.
pub fn normalize_sse_line(line: &str) -> (out: Option<EventFrame>)
    ensures
        crate::data::opt_view(out) == line_frame(line@),
{
    match strip_prefix(line, "data: ") {
        Some(data) => {
            let parsed = Json::parse(data.as_str());
            frame_from_json(&parsed)
        },
        None => None,
    }
}

/// An event that the gateway makes: of a kind, at a place, with the given fields.
pub open spec fn synthetic(
    event_type: SSEEventType,
    output_index: u32,
    fields: Map<Seq<char>, JsonView>,
) -> EventFrameView {
    EventFrameView {
        event_type,
        payload: payload_of(
            event_type,
            fields.insert("output_index"@, crate::wire::u64_json(output_index as u64)),
        ),
        wire: WireEventView {
            event_type: event_name(event_type),
            output_index: Some(output_index as u64),
            sequence_number: None,
            rest: fields,
        },
    }
}

/// An event that the gateway makes: of a kind, at a place, with the given fields.
pub fn synthetic_event(
    event_type: SSEEventType,
    output_index: u32,
    fields: JsonObject,
) -> (frame: EventFrame)
    ensures
        frame@ == synthetic(event_type, output_index, fields@),
{
    let mut all = fields.copy();
    all.set("output_index", Json::Number(JsonNumber::from_u64(output_index as u64)));
    EventFrame {
        event_type,
        payload: read_payload(event_type, &all),
        wire: WireEvent {
            event_type: event_type.as_str().to_owned(),
            output_index: Some(output_index as u64),
            sequence_number: None,
            rest: fields,
        },
    }
}

} // verus!
