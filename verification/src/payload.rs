//! Requests and responses.
use vstd::prelude::*;

#[allow(unused_imports)]
use crate::data::{copy_opt, copy_opt_vec, copy_vec, same_opt, same_opt_vec, same_vec, Data};
#[allow(unused_imports)]
use crate::json::{Json, JsonObject, JsonView};
#[allow(unused_imports)]
use crate::items::{
    InputItem, InputItemView, OutputItem, OutputItemView, ResponsesInput, ResponsesInputView,
};
#[allow(unused_imports)]
use crate::json::JsonNumber;
#[allow(unused_imports)]
use crate::tools::{
    FunctionTool, FunctionToolView, ResponsesTool, ResponsesToolView, ToolChoice, ToolChoiceView,
};

verus! {

/// How far a response has come.
#[derive(Debug, Clone, Copy, PartialEq, Eq, Structural)]
pub enum ResponseStatus {
    InProgress,
    Completed,
    Incomplete,
    Error,
}

/// The tokens that a response took.
#[derive(Debug, Clone, Copy, PartialEq, Eq, Structural)]
pub struct ResponseUsage {
    pub input_tokens: u64,
    pub output_tokens: u64,
    pub total_tokens: u64,
    pub cached_tokens: u64,
    pub reasoning_tokens: u64,
}

impl Default for ResponseUsage {
    fn default() -> (usage: ResponseUsage)
        ensures
            usage == (ResponseUsage {
                input_tokens: 0,
                output_tokens: 0,
                total_tokens: 0,
                cached_tokens: 0,
                reasoning_tokens: 0,
            }),
    {
        ResponseUsage {
            input_tokens: 0,
            output_tokens: 0,
            total_tokens: 0,
            cached_tokens: 0,
            reasoning_tokens: 0,
        }
    }
}

/// Server-side context management configuration for a request.
#[derive(Debug, Clone, PartialEq)]
pub struct ContextManagement {
    pub type_: String,
    pub compact_threshold: Option<u64>,
}

/// The view of a [`ContextManagement`].
#[verifier::ext_equal]
pub struct ContextManagementView {
    pub type_: Seq<char>,
    pub compact_threshold: Option<u64>,
}

impl View for ContextManagement {
    type V = ContextManagementView;

    open spec fn view(&self) -> ContextManagementView {
        ContextManagementView {
            type_: self.type_@,
            compact_threshold: self.compact_threshold,
        }
    }
}

impl Data for ContextManagement {
    fn copied(&self) -> (out: ContextManagement) {
        ContextManagement {
            type_: self.type_.copied(),
            compact_threshold: self.compact_threshold,
        }
    }

    fn same(&self, other: &ContextManagement) -> (yes: bool) {
        self.type_.same(&other.type_)
            && self.compact_threshold == other.compact_threshold
    }
}

/// A request for a response.
#[derive(Debug, Clone, PartialEq)]
pub struct RequestPayload {
    pub model: String,
    pub input: ResponsesInput,
    pub instructions: Option<String>,
    pub previous_response_id: Option<String>,
    pub conversation_id: Option<String>,
    pub tools: Option<Vec<ResponsesTool>>,
    pub tool_choice: Option<ToolChoice>,
    pub stream: bool,
    pub store: bool,
    pub include_fields: Option<Vec<String>>,
    pub temperature: Option<JsonNumber>,
    pub top_p: Option<JsonNumber>,
    pub max_output_tokens: Option<u64>,
    pub truncation: Option<String>,
    pub metadata: Option<Json>,
    pub parallel_tool_calls: Option<bool>,
    pub cache_salt: Option<String>,
    pub context_management: Option<Vec<ContextManagement>>,
}

/// The view of a [`RequestPayload`].
#[verifier::ext_equal]
pub struct RequestPayloadView {
    pub model: Seq<char>,
    pub input: ResponsesInputView,
    pub instructions: Option<Seq<char>>,
    pub previous_response_id: Option<Seq<char>>,
    pub conversation_id: Option<Seq<char>>,
    pub tools: Option<Seq<ResponsesToolView>>,
    pub tool_choice: Option<ToolChoiceView>,
    pub stream: bool,
    pub store: bool,
    pub include_fields: Option<Seq<Seq<char>>>,
    pub temperature: Option<Seq<char>>,
    pub top_p: Option<Seq<char>>,
    pub max_output_tokens: Option<u64>,
    pub truncation: Option<Seq<char>>,
    pub metadata: Option<JsonView>,
    pub parallel_tool_calls: Option<bool>,
    pub cache_salt: Option<Seq<char>>,
    pub context_management: Option<Seq<ContextManagementView>>,
}

impl View for RequestPayload {
    type V = RequestPayloadView;

    open spec fn view(&self) -> RequestPayloadView {
        RequestPayloadView {
            model: self.model@,
            input: self.input@,
            instructions: crate::data::opt_view(self.instructions),
            previous_response_id: crate::data::opt_view(self.previous_response_id),
            conversation_id: crate::data::opt_view(self.conversation_id),
            tools: crate::data::opt_views(self.tools),
            tool_choice: crate::data::opt_view(self.tool_choice),
            stream: self.stream,
            store: self.store,
            include_fields: crate::data::opt_views(self.include_fields),
            temperature: crate::data::opt_view(self.temperature),
            top_p: crate::data::opt_view(self.top_p),
            max_output_tokens: self.max_output_tokens,
            truncation: crate::data::opt_view(self.truncation),
            metadata: crate::data::opt_view(self.metadata),
            parallel_tool_calls: self.parallel_tool_calls,
            cache_salt: crate::data::opt_view(self.cache_salt),
            context_management: crate::data::opt_views(self.context_management),
        }
    }
}

impl Data for RequestPayload {
    fn copied(&self) -> (out: RequestPayload) {
        RequestPayload {
            model: self.model.copied(),
            input: self.input.copied(),
            instructions: copy_opt(&self.instructions),
            previous_response_id: copy_opt(&self.previous_response_id),
            conversation_id: copy_opt(&self.conversation_id),
            tools: copy_opt_vec(&self.tools),
            tool_choice: copy_opt(&self.tool_choice),
            stream: self.stream,
            store: self.store,
            include_fields: copy_opt_vec(&self.include_fields),
            temperature: copy_opt(&self.temperature),
            top_p: copy_opt(&self.top_p),
            max_output_tokens: self.max_output_tokens,
            truncation: copy_opt(&self.truncation),
            metadata: copy_opt(&self.metadata),
            parallel_tool_calls: self.parallel_tool_calls,
            cache_salt: copy_opt(&self.cache_salt),
            context_management: copy_opt_vec(&self.context_management),
        }
    }

    fn same(&self, other: &RequestPayload) -> (yes: bool) {
        self.model.same(&other.model)
            && self.input.same(&other.input)
            && same_opt(&self.instructions, &other.instructions)
            && same_opt(&self.previous_response_id, &other.previous_response_id)
            && same_opt(&self.conversation_id, &other.conversation_id)
            && same_opt_vec(&self.tools, &other.tools)
            && same_opt(&self.tool_choice, &other.tool_choice)
            && self.stream == other.stream
            && self.store == other.store
            && same_opt_vec(&self.include_fields, &other.include_fields)
            && same_opt(&self.temperature, &other.temperature)
            && same_opt(&self.top_p, &other.top_p)
            && self.max_output_tokens == other.max_output_tokens
            && same_opt(&self.truncation, &other.truncation)
            && same_opt(&self.metadata, &other.metadata)
            && self.parallel_tool_calls == other.parallel_tool_calls
            && same_opt(&self.cache_salt, &other.cache_salt)
            && same_opt_vec(&self.context_management, &other.context_management)
    }
}

/// A normalized tool declaration that the upstream server supports.
#[derive(Debug, Clone, PartialEq)]
pub enum UpstreamTool {
    Function(FunctionTool),
}

/// The view of a [`UpstreamTool`].
#[verifier::ext_equal]
pub enum UpstreamToolView {
    Function(FunctionToolView),
}

impl View for UpstreamTool {
    type V = UpstreamToolView;

    open spec fn view(&self) -> UpstreamToolView {
        match *self {
            UpstreamTool::Function(x) => UpstreamToolView::Function(x@),
        }
    }
}

impl Data for UpstreamTool {
    fn copied(&self) -> (out: UpstreamTool) {
        match self {
            UpstreamTool::Function(x) => UpstreamTool::Function(x.copied()),
        }
    }

    fn same(&self, other: &UpstreamTool) -> (yes: bool) {
        match (self, other) {
            (UpstreamTool::Function(a), UpstreamTool::Function(b)) => a.same(b),
        }
    }
}

/// A request as the upstream server takes it.
#[derive(Debug, Clone, PartialEq)]
pub struct UpstreamRequest {
    pub model: String,
    pub input: ResponsesInput,
    pub stream: bool,
    pub instructions: Option<String>,
    /// Left out where there is none.
    pub tools: Option<Vec<UpstreamTool>>,
    pub tool_choice: Option<ToolChoice>,
    pub include_fields: Option<Vec<String>>,
    pub temperature: Option<JsonNumber>,
    pub top_p: Option<JsonNumber>,
    pub max_output_tokens: Option<u64>,
    pub truncation: Option<String>,
    pub metadata: Option<Json>,
    pub parallel_tool_calls: Option<bool>,
    pub cache_salt: Option<String>,
}

/// The view of a [`UpstreamRequest`].
#[verifier::ext_equal]
pub struct UpstreamRequestView {
    pub model: Seq<char>,
    pub input: ResponsesInputView,
    pub stream: bool,
    pub instructions: Option<Seq<char>>,
    pub tools: Option<Seq<UpstreamToolView>>,
    pub tool_choice: Option<ToolChoiceView>,
    pub include_fields: Option<Seq<Seq<char>>>,
    pub temperature: Option<Seq<char>>,
    pub top_p: Option<Seq<char>>,
    pub max_output_tokens: Option<u64>,
    pub truncation: Option<Seq<char>>,
    pub metadata: Option<JsonView>,
    pub parallel_tool_calls: Option<bool>,
    pub cache_salt: Option<Seq<char>>,
}

impl View for UpstreamRequest {
    type V = UpstreamRequestView;

    open spec fn view(&self) -> UpstreamRequestView {
        UpstreamRequestView {
            model: self.model@,
            input: self.input@,
            stream: self.stream,
            instructions: crate::data::opt_view(self.instructions),
            tools: crate::data::opt_views(self.tools),
            tool_choice: crate::data::opt_view(self.tool_choice),
            include_fields: crate::data::opt_views(self.include_fields),
            temperature: crate::data::opt_view(self.temperature),
            top_p: crate::data::opt_view(self.top_p),
            max_output_tokens: self.max_output_tokens,
            truncation: crate::data::opt_view(self.truncation),
            metadata: crate::data::opt_view(self.metadata),
            parallel_tool_calls: self.parallel_tool_calls,
            cache_salt: crate::data::opt_view(self.cache_salt),
        }
    }
}

impl Data for UpstreamRequest {
    fn copied(&self) -> (out: UpstreamRequest) {
        UpstreamRequest {
            model: self.model.copied(),
            input: self.input.copied(),
            stream: self.stream,
            instructions: copy_opt(&self.instructions),
            tools: copy_opt_vec(&self.tools),
            tool_choice: copy_opt(&self.tool_choice),
            include_fields: copy_opt_vec(&self.include_fields),
            temperature: copy_opt(&self.temperature),
            top_p: copy_opt(&self.top_p),
            max_output_tokens: self.max_output_tokens,
            truncation: copy_opt(&self.truncation),
            metadata: copy_opt(&self.metadata),
            parallel_tool_calls: self.parallel_tool_calls,
            cache_salt: copy_opt(&self.cache_salt),
        }
    }

    fn same(&self, other: &UpstreamRequest) -> (yes: bool) {
        self.model.same(&other.model)
            && self.input.same(&other.input)
            && self.stream == other.stream
            && same_opt(&self.instructions, &other.instructions)
            && same_opt_vec(&self.tools, &other.tools)
            && same_opt(&self.tool_choice, &other.tool_choice)
            && same_opt_vec(&self.include_fields, &other.include_fields)
            && same_opt(&self.temperature, &other.temperature)
            && same_opt(&self.top_p, &other.top_p)
            && self.max_output_tokens == other.max_output_tokens
            && same_opt(&self.truncation, &other.truncation)
            && same_opt(&self.metadata, &other.metadata)
            && self.parallel_tool_calls == other.parallel_tool_calls
            && same_opt(&self.cache_salt, &other.cache_salt)
    }
}

/// A request to compact a conversation.
#[derive(Debug, Clone, PartialEq)]
pub struct CompactRequest {
    pub model: String,
    pub input: Option<ResponsesInput>,
    pub instructions: Option<String>,
    pub previous_response_id: Option<String>,
    /// Fields that current clients send and compaction does not use.
    pub compatibility: JsonObject,
}

/// The view of a [`CompactRequest`].
#[verifier::ext_equal]
pub struct CompactRequestView {
    pub model: Seq<char>,
    pub input: Option<ResponsesInputView>,
    pub instructions: Option<Seq<char>>,
    pub previous_response_id: Option<Seq<char>>,
    pub compatibility: Map<Seq<char>, JsonView>,
}

impl View for CompactRequest {
    type V = CompactRequestView;

    open spec fn view(&self) -> CompactRequestView {
        CompactRequestView {
            model: self.model@,
            input: crate::data::opt_view(self.input),
            instructions: crate::data::opt_view(self.instructions),
            previous_response_id: crate::data::opt_view(self.previous_response_id),
            compatibility: self.compatibility@,
        }
    }
}

impl Data for CompactRequest {
    fn copied(&self) -> (out: CompactRequest) {
        CompactRequest {
            model: self.model.copied(),
            input: copy_opt(&self.input),
            instructions: copy_opt(&self.instructions),
            previous_response_id: copy_opt(&self.previous_response_id),
            compatibility: self.compatibility.copied(),
        }
    }

    fn same(&self, other: &CompactRequest) -> (yes: bool) {
        self.model.same(&other.model)
            && same_opt(&self.input, &other.input)
            && same_opt(&self.instructions, &other.instructions)
            && same_opt(&self.previous_response_id, &other.previous_response_id)
            && self.compatibility.same(&other.compatibility)
    }
}

/// A compacted conversation.
#[derive(Debug, Clone, PartialEq)]
pub struct CompactedResponse {
    pub id: String,
    pub object: String,
    pub created_at: i64,
    pub output: Vec<InputItem>,
    pub usage: ResponseUsage,
}

/// The view of a [`CompactedResponse`].
#[verifier::ext_equal]
pub struct CompactedResponseView {
    pub id: Seq<char>,
    pub object: Seq<char>,
    pub created_at: i64,
    pub output: Seq<InputItemView>,
    pub usage: ResponseUsage,
}

impl View for CompactedResponse {
    type V = CompactedResponseView;

    open spec fn view(&self) -> CompactedResponseView {
        CompactedResponseView {
            id: self.id@,
            object: self.object@,
            created_at: self.created_at,
            output: crate::data::views(self.output@),
            usage: self.usage,
        }
    }
}

impl Data for CompactedResponse {
    fn copied(&self) -> (out: CompactedResponse) {
        CompactedResponse {
            id: self.id.copied(),
            object: self.object.copied(),
            created_at: self.created_at,
            output: copy_vec(&self.output),
            usage: self.usage,
        }
    }

    fn same(&self, other: &CompactedResponse) -> (yes: bool) {
        self.id.same(&other.id)
            && self.object.same(&other.object)
            && self.created_at == other.created_at
            && same_vec(&self.output, &other.output)
            && self.usage == other.usage
    }
}

/// Why a response is incomplete.
#[derive(Debug, Clone, PartialEq)]
pub struct IncompleteDetails {
    pub reason: Option<String>,
}

/// The view of a [`IncompleteDetails`].
#[verifier::ext_equal]
pub struct IncompleteDetailsView {
    pub reason: Option<Seq<char>>,
}

impl View for IncompleteDetails {
    type V = IncompleteDetailsView;

    open spec fn view(&self) -> IncompleteDetailsView {
        IncompleteDetailsView {
            reason: crate::data::opt_view(self.reason),
        }
    }
}

impl Data for IncompleteDetails {
    fn copied(&self) -> (out: IncompleteDetails) {
        IncompleteDetails {
            reason: copy_opt(&self.reason),
        }
    }

    fn same(&self, other: &IncompleteDetails) -> (yes: bool) {
        same_opt(&self.reason, &other.reason)
    }
}

/// A response.
#[derive(Debug, Clone, PartialEq)]
pub struct ResponsePayload {
    pub id: String,
    pub object: String,
    pub created_at: i64,
    pub model: String,
    pub status: String,
    pub output: Vec<OutputItem>,
    pub usage: Option<ResponseUsage>,
    pub incomplete_details: Option<IncompleteDetails>,
    pub error: Option<Json>,
    pub previous_response_id: Option<String>,
    pub conversation_id: Option<String>,
    pub instructions: Option<String>,
}

/// The view of a [`ResponsePayload`].
#[verifier::ext_equal]
pub struct ResponsePayloadView {
    pub id: Seq<char>,
    pub object: Seq<char>,
    pub created_at: i64,
    pub model: Seq<char>,
    pub status: Seq<char>,
    pub output: Seq<OutputItemView>,
    pub usage: Option<ResponseUsage>,
    pub incomplete_details: Option<IncompleteDetailsView>,
    pub error: Option<JsonView>,
    pub previous_response_id: Option<Seq<char>>,
    pub conversation_id: Option<Seq<char>>,
    pub instructions: Option<Seq<char>>,
}

impl View for ResponsePayload {
    type V = ResponsePayloadView;

    open spec fn view(&self) -> ResponsePayloadView {
        ResponsePayloadView {
            id: self.id@,
            object: self.object@,
            created_at: self.created_at,
            model: self.model@,
            status: self.status@,
            output: crate::data::views(self.output@),
            usage: self.usage,
            incomplete_details: crate::data::opt_view(self.incomplete_details),
            error: crate::data::opt_view(self.error),
            previous_response_id: crate::data::opt_view(self.previous_response_id),
            conversation_id: crate::data::opt_view(self.conversation_id),
            instructions: crate::data::opt_view(self.instructions),
        }
    }
}

impl Data for ResponsePayload {
    fn copied(&self) -> (out: ResponsePayload) {
        ResponsePayload {
            id: self.id.copied(),
            object: self.object.copied(),
            created_at: self.created_at,
            model: self.model.copied(),
            status: self.status.copied(),
            output: copy_vec(&self.output),
            usage: self.usage,
            incomplete_details: copy_opt(&self.incomplete_details),
            error: copy_opt(&self.error),
            previous_response_id: copy_opt(&self.previous_response_id),
            conversation_id: copy_opt(&self.conversation_id),
            instructions: copy_opt(&self.instructions),
        }
    }

    fn same(&self, other: &ResponsePayload) -> (yes: bool) {
        self.id.same(&other.id)
            && self.object.same(&other.object)
            && self.created_at == other.created_at
            && self.model.same(&other.model)
            && self.status.same(&other.status)
            && same_vec(&self.output, &other.output)
            && self.usage == other.usage
            && same_opt(&self.incomplete_details, &other.incomplete_details)
            && same_opt(&self.error, &other.error)
            && same_opt(&self.previous_response_id, &other.previous_response_id)
            && same_opt(&self.conversation_id, &other.conversation_id)
            && same_opt(&self.instructions, &other.instructions)
    }
}

} // verus!
