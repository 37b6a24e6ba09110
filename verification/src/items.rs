//! Items of requests and responses.
use vstd::prelude::*;

#[allow(unused_imports)]
use crate::data::{copy_opt, copy_vec, same_opt, same_vec, Data};
#[allow(unused_imports)]
use crate::json::{Json, JsonObject, JsonView};
#[allow(unused_imports)]
use crate::tools::{
    McpTool, McpToolView, ResponsesTool, ResponsesToolView, ToolSearchExecution, ToolSearchStatus,
};

verus! {

/// How far a message or a call has come.
#[derive(Debug, Clone, Copy, PartialEq, Eq, Structural)]
pub enum MessageStatus {
    InProgress,
    Completed,
    Incomplete,
}

/// How far a call that the gateway runs has come.
#[derive(Debug, Clone, Copy, PartialEq, Eq, Structural)]
pub enum GatewayCallStatus {
    InProgress,
    Completed,
    Failed,
}

/// How far an MCP call has come.
#[derive(Debug, Clone, Copy, PartialEq, Eq, Structural)]
pub enum McpCallStatus {
    InProgress,
    Calling,
    Completed,
    Incomplete,
    Failed,
}

/// How far a web search has come.
#[derive(Debug, Clone, Copy, PartialEq, Eq, Structural)]
pub enum WebSearchCallStatus {
    InProgress,
    Searching,
    Completed,
    Failed,
}

/// Text in a message.
#[derive(Debug, Clone, PartialEq)]
pub struct InputTextContent {
    pub text: String,
}

/// The view of a [`InputTextContent`].
#[verifier::ext_equal]
pub struct InputTextContentView {
    pub text: Seq<char>,
}

impl View for InputTextContent {
    type V = InputTextContentView;

    open spec fn view(&self) -> InputTextContentView {
        InputTextContentView {
            text: self.text@,
        }
    }
}

impl Data for InputTextContent {
    fn copied(&self) -> (out: InputTextContent) {
        InputTextContent {
            text: self.text.copied(),
        }
    }

    fn same(&self, other: &InputTextContent) -> (yes: bool) {
        self.text.same(&other.text)
    }
}

/// An image in a message.
#[derive(Debug, Clone, PartialEq)]
pub struct InputImageContent {
    pub image_url: Option<String>,
    pub detail: Option<String>,
}

/// The view of a [`InputImageContent`].
#[verifier::ext_equal]
pub struct InputImageContentView {
    pub image_url: Option<Seq<char>>,
    pub detail: Option<Seq<char>>,
}

impl View for InputImageContent {
    type V = InputImageContentView;

    open spec fn view(&self) -> InputImageContentView {
        InputImageContentView {
            image_url: crate::data::opt_view(self.image_url),
            detail: crate::data::opt_view(self.detail),
        }
    }
}

impl Data for InputImageContent {
    fn copied(&self) -> (out: InputImageContent) {
        InputImageContent {
            image_url: copy_opt(&self.image_url),
            detail: copy_opt(&self.detail),
        }
    }

    fn same(&self, other: &InputImageContent) -> (yes: bool) {
        same_opt(&self.image_url, &other.image_url)
            && same_opt(&self.detail, &other.detail)
    }
}

/// A part of a message.
#[derive(Debug, Clone, PartialEq)]
pub enum InputContent {
    InputText(InputTextContent),
    InputImage(InputImageContent),
    /// Assistant output text in rehydrated history.
    OutputText(InputTextContent),
    /// Reasoning step text in rehydrated history.
    ReasoningText(InputTextContent),
    /// Any other kind of part.
    Unknown,
}

/// The view of a [`InputContent`].
#[verifier::ext_equal]
pub enum InputContentView {
    InputText(InputTextContentView),
    InputImage(InputImageContentView),
    OutputText(InputTextContentView),
    ReasoningText(InputTextContentView),
    Unknown,
}

impl View for InputContent {
    type V = InputContentView;

    open spec fn view(&self) -> InputContentView {
        match *self {
            InputContent::InputText(x) => InputContentView::InputText(x@),
            InputContent::InputImage(x) => InputContentView::InputImage(x@),
            InputContent::OutputText(x) => InputContentView::OutputText(x@),
            InputContent::ReasoningText(x) => InputContentView::ReasoningText(x@),
            InputContent::Unknown => InputContentView::Unknown,
        }
    }
}

impl Data for InputContent {
    fn copied(&self) -> (out: InputContent) {
        match self {
            InputContent::InputText(x) => InputContent::InputText(x.copied()),
            InputContent::InputImage(x) => InputContent::InputImage(x.copied()),
            InputContent::OutputText(x) => InputContent::OutputText(x.copied()),
            InputContent::ReasoningText(x) => InputContent::ReasoningText(x.copied()),
            InputContent::Unknown => InputContent::Unknown,
        }
    }

    fn same(&self, other: &InputContent) -> (yes: bool) {
        match (self, other) {
            (InputContent::InputText(a), InputContent::InputText(b)) => a.same(b),
            (InputContent::InputImage(a), InputContent::InputImage(b)) => a.same(b),
            (InputContent::OutputText(a), InputContent::OutputText(b)) => a.same(b),
            (InputContent::ReasoningText(a), InputContent::ReasoningText(b)) => a.same(b),
            (InputContent::Unknown, InputContent::Unknown) => true,
            _ => false,
        }
    }
}

/// What a message says.
#[derive(Debug, Clone, PartialEq)]
pub enum InputMessageContent {
    Text(String),
    Parts(Vec<InputContent>),
}

/// The view of a [`InputMessageContent`].
#[verifier::ext_equal]
pub enum InputMessageContentView {
    Text(Seq<char>),
    Parts(Seq<InputContentView>),
}

impl View for InputMessageContent {
    type V = InputMessageContentView;

    open spec fn view(&self) -> InputMessageContentView {
        match *self {
            InputMessageContent::Text(x) => InputMessageContentView::Text(x@),
            InputMessageContent::Parts(x) => InputMessageContentView::Parts(crate::data::views(x@)),
        }
    }
}

impl Data for InputMessageContent {
    fn copied(&self) -> (out: InputMessageContent) {
        match self {
            InputMessageContent::Text(x) => InputMessageContent::Text(x.copied()),
            InputMessageContent::Parts(x) => InputMessageContent::Parts(copy_vec(x)),
        }
    }

    fn same(&self, other: &InputMessageContent) -> (yes: bool) {
        match (self, other) {
            (InputMessageContent::Text(a), InputMessageContent::Text(b)) => a.same(b),
            (InputMessageContent::Parts(a), InputMessageContent::Parts(b)) => same_vec(a, b),
            _ => false,
        }
    }
}

/// A message of the conversation.
#[derive(Debug, Clone, PartialEq)]
pub struct InputMessage {
    pub role: String,
    pub content: InputMessageContent,
}

/// The view of a [`InputMessage`].
#[verifier::ext_equal]
pub struct InputMessageView {
    pub role: Seq<char>,
    pub content: InputMessageContentView,
}

impl View for InputMessage {
    type V = InputMessageView;

    open spec fn view(&self) -> InputMessageView {
        InputMessageView {
            role: self.role@,
            content: self.content@,
        }
    }
}

impl Data for InputMessage {
    fn copied(&self) -> (out: InputMessage) {
        InputMessage {
            role: self.role.copied(),
            content: self.content.copied(),
        }
    }

    fn same(&self, other: &InputMessage) -> (yes: bool) {
        self.role.same(&other.role)
            && self.content.same(&other.content)
    }
}

/// The result of a function call.
#[derive(Debug, Clone, PartialEq)]
pub struct FunctionToolResultMessage {
    pub call_id: String,
    pub output: String,
}

/// The view of a [`FunctionToolResultMessage`].
#[verifier::ext_equal]
pub struct FunctionToolResultMessageView {
    pub call_id: Seq<char>,
    pub output: Seq<char>,
}

impl View for FunctionToolResultMessage {
    type V = FunctionToolResultMessageView;

    open spec fn view(&self) -> FunctionToolResultMessageView {
        FunctionToolResultMessageView {
            call_id: self.call_id@,
            output: self.output@,
        }
    }
}

impl Data for FunctionToolResultMessage {
    fn copied(&self) -> (out: FunctionToolResultMessage) {
        FunctionToolResultMessage {
            call_id: self.call_id.copied(),
            output: self.output.copied(),
        }
    }

    fn same(&self, other: &FunctionToolResultMessage) -> (yes: bool) {
        self.call_id.same(&other.call_id)
            && self.output.same(&other.output)
    }
}

/// The client's result for a freeform custom tool call.
#[derive(Debug, Clone, PartialEq)]
pub struct CustomToolCallOutputMessage {
    pub call_id: String,
    pub name: Option<String>,
    pub output: Json,
}

/// The view of a [`CustomToolCallOutputMessage`].
#[verifier::ext_equal]
pub struct CustomToolCallOutputMessageView {
    pub call_id: Seq<char>,
    pub name: Option<Seq<char>>,
    pub output: JsonView,
}

impl View for CustomToolCallOutputMessage {
    type V = CustomToolCallOutputMessageView;

    open spec fn view(&self) -> CustomToolCallOutputMessageView {
        CustomToolCallOutputMessageView {
            call_id: self.call_id@,
            name: crate::data::opt_view(self.name),
            output: self.output@,
        }
    }
}

impl Data for CustomToolCallOutputMessage {
    fn copied(&self) -> (out: CustomToolCallOutputMessage) {
        CustomToolCallOutputMessage {
            call_id: self.call_id.copied(),
            name: copy_opt(&self.name),
            output: self.output.copied(),
        }
    }

    fn same(&self, other: &CustomToolCallOutputMessage) -> (yes: bool) {
        self.call_id.same(&other.call_id)
            && same_opt(&self.name, &other.name)
            && self.output.same(&other.output)
    }
}

/// A function call in the history.
#[derive(Debug, Clone, PartialEq)]
pub struct InputFunctionToolCall {
    pub id: Option<String>,
    pub call_id: String,
    pub name: String,
    pub namespace: Option<String>,
    pub arguments: String,
    pub status: Option<MessageStatus>,
}

/// The view of a [`InputFunctionToolCall`].
#[verifier::ext_equal]
pub struct InputFunctionToolCallView {
    pub id: Option<Seq<char>>,
    pub call_id: Seq<char>,
    pub name: Seq<char>,
    pub namespace: Option<Seq<char>>,
    pub arguments: Seq<char>,
    pub status: Option<MessageStatus>,
}

impl View for InputFunctionToolCall {
    type V = InputFunctionToolCallView;

    open spec fn view(&self) -> InputFunctionToolCallView {
        InputFunctionToolCallView {
            id: crate::data::opt_view(self.id),
            call_id: self.call_id@,
            name: self.name@,
            namespace: crate::data::opt_view(self.namespace),
            arguments: self.arguments@,
            status: self.status,
        }
    }
}

impl Data for InputFunctionToolCall {
    fn copied(&self) -> (out: InputFunctionToolCall) {
        InputFunctionToolCall {
            id: copy_opt(&self.id),
            call_id: self.call_id.copied(),
            name: self.name.copied(),
            namespace: copy_opt(&self.namespace),
            arguments: self.arguments.copied(),
            status: self.status,
        }
    }

    fn same(&self, other: &InputFunctionToolCall) -> (yes: bool) {
        same_opt(&self.id, &other.id)
            && self.call_id.same(&other.call_id)
            && self.name.same(&other.name)
            && same_opt(&self.namespace, &other.namespace)
            && self.arguments.same(&other.arguments)
            && self.status == other.status
    }
}

/// A tool-search call in the history.
#[derive(Debug, Clone, PartialEq)]
pub struct InputToolSearchCall {
    pub id: String,
    pub call_id: String,
    pub arguments: JsonObject,
    pub execution: Option<ToolSearchExecution>,
    pub status: Option<ToolSearchStatus>,
}

/// The view of a [`InputToolSearchCall`].
#[verifier::ext_equal]
pub struct InputToolSearchCallView {
    pub id: Seq<char>,
    pub call_id: Seq<char>,
    pub arguments: Map<Seq<char>, JsonView>,
    pub execution: Option<ToolSearchExecution>,
    pub status: Option<ToolSearchStatus>,
}

impl View for InputToolSearchCall {
    type V = InputToolSearchCallView;

    open spec fn view(&self) -> InputToolSearchCallView {
        InputToolSearchCallView {
            id: self.id@,
            call_id: self.call_id@,
            arguments: self.arguments@,
            execution: self.execution,
            status: self.status,
        }
    }
}

impl Data for InputToolSearchCall {
    fn copied(&self) -> (out: InputToolSearchCall) {
        InputToolSearchCall {
            id: self.id.copied(),
            call_id: self.call_id.copied(),
            arguments: self.arguments.copied(),
            execution: self.execution,
            status: self.status,
        }
    }

    fn same(&self, other: &InputToolSearchCall) -> (yes: bool) {
        self.id.same(&other.id)
            && self.call_id.same(&other.call_id)
            && self.arguments.same(&other.arguments)
            && self.execution == other.execution
            && self.status == other.status
    }
}

/// The definitions that a tool search loaded.
#[derive(Debug, Clone, PartialEq)]
pub struct ToolSearchOutputMessage {
    pub call_id: String,
    pub tools: Vec<ResponsesTool>,
    pub execution: Option<ToolSearchExecution>,
    pub status: Option<ToolSearchStatus>,
}

/// The view of a [`ToolSearchOutputMessage`].
#[verifier::ext_equal]
pub struct ToolSearchOutputMessageView {
    pub call_id: Seq<char>,
    pub tools: Seq<ResponsesToolView>,
    pub execution: Option<ToolSearchExecution>,
    pub status: Option<ToolSearchStatus>,
}

impl View for ToolSearchOutputMessage {
    type V = ToolSearchOutputMessageView;

    open spec fn view(&self) -> ToolSearchOutputMessageView {
        ToolSearchOutputMessageView {
            call_id: self.call_id@,
            tools: crate::data::views(self.tools@),
            execution: self.execution,
            status: self.status,
        }
    }
}

impl Data for ToolSearchOutputMessage {
    fn copied(&self) -> (out: ToolSearchOutputMessage) {
        ToolSearchOutputMessage {
            call_id: self.call_id.copied(),
            tools: copy_vec(&self.tools),
            execution: self.execution,
            status: self.status,
        }
    }

    fn same(&self, other: &ToolSearchOutputMessage) -> (yes: bool) {
        self.call_id.same(&other.call_id)
            && same_vec(&self.tools, &other.tools)
            && self.execution == other.execution
            && self.status == other.status
    }
}

/// A function call that the model made.
#[derive(Debug, Clone, PartialEq)]
pub struct FunctionToolCall {
    pub id: String,
    pub call_id: String,
    pub name: String,
    pub namespace: Option<String>,
    pub arguments: String,
    pub status: MessageStatus,
}

/// The view of a [`FunctionToolCall`].
#[verifier::ext_equal]
pub struct FunctionToolCallView {
    pub id: Seq<char>,
    pub call_id: Seq<char>,
    pub name: Seq<char>,
    pub namespace: Option<Seq<char>>,
    pub arguments: Seq<char>,
    pub status: MessageStatus,
}

impl View for FunctionToolCall {
    type V = FunctionToolCallView;

    open spec fn view(&self) -> FunctionToolCallView {
        FunctionToolCallView {
            id: self.id@,
            call_id: self.call_id@,
            name: self.name@,
            namespace: crate::data::opt_view(self.namespace),
            arguments: self.arguments@,
            status: self.status,
        }
    }
}

impl Data for FunctionToolCall {
    fn copied(&self) -> (out: FunctionToolCall) {
        FunctionToolCall {
            id: self.id.copied(),
            call_id: self.call_id.copied(),
            name: self.name.copied(),
            namespace: copy_opt(&self.namespace),
            arguments: self.arguments.copied(),
            status: self.status,
        }
    }

    fn same(&self, other: &FunctionToolCall) -> (yes: bool) {
        self.id.same(&other.id)
            && self.call_id.same(&other.call_id)
            && self.name.same(&other.name)
            && same_opt(&self.namespace, &other.namespace)
            && self.arguments.same(&other.arguments)
            && self.status == other.status
    }
}

/// A freeform call that the model made.
#[derive(Debug, Clone, PartialEq)]
pub struct CustomToolCall {
    pub id: String,
    pub status: Option<MessageStatus>,
    pub call_id: String,
    pub name: String,
    pub input: String,
}

/// The view of a [`CustomToolCall`].
#[verifier::ext_equal]
pub struct CustomToolCallView {
    pub id: Seq<char>,
    pub status: Option<MessageStatus>,
    pub call_id: Seq<char>,
    pub name: Seq<char>,
    pub input: Seq<char>,
}

impl View for CustomToolCall {
    type V = CustomToolCallView;

    open spec fn view(&self) -> CustomToolCallView {
        CustomToolCallView {
            id: self.id@,
            status: self.status,
            call_id: self.call_id@,
            name: self.name@,
            input: self.input@,
        }
    }
}

impl Data for CustomToolCall {
    fn copied(&self) -> (out: CustomToolCall) {
        CustomToolCall {
            id: self.id.copied(),
            status: self.status,
            call_id: self.call_id.copied(),
            name: self.name.copied(),
            input: self.input.copied(),
        }
    }

    fn same(&self, other: &CustomToolCall) -> (yes: bool) {
        self.id.same(&other.id)
            && self.status == other.status
            && self.call_id.same(&other.call_id)
            && self.name.same(&other.name)
            && self.input.same(&other.input)
    }
}

/// A tool-search call that the model made.
#[derive(Debug, Clone, PartialEq)]
pub struct ToolSearchCall {
    pub id: String,
    pub call_id: String,
    pub execution: ToolSearchExecution,
    pub arguments: JsonObject,
    pub status: ToolSearchStatus,
}

/// The view of a [`ToolSearchCall`].
#[verifier::ext_equal]
pub struct ToolSearchCallView {
    pub id: Seq<char>,
    pub call_id: Seq<char>,
    pub execution: ToolSearchExecution,
    pub arguments: Map<Seq<char>, JsonView>,
    pub status: ToolSearchStatus,
}

impl View for ToolSearchCall {
    type V = ToolSearchCallView;

    open spec fn view(&self) -> ToolSearchCallView {
        ToolSearchCallView {
            id: self.id@,
            call_id: self.call_id@,
            execution: self.execution,
            arguments: self.arguments@,
            status: self.status,
        }
    }
}

impl Data for ToolSearchCall {
    fn copied(&self) -> (out: ToolSearchCall) {
        ToolSearchCall {
            id: self.id.copied(),
            call_id: self.call_id.copied(),
            execution: self.execution,
            arguments: self.arguments.copied(),
            status: self.status,
        }
    }

    fn same(&self, other: &ToolSearchCall) -> (yes: bool) {
        self.id.same(&other.id)
            && self.call_id.same(&other.call_id)
            && self.execution == other.execution
            && self.arguments.same(&other.arguments)
            && self.status == other.status
    }
}

/// A step of reasoning.
#[derive(Debug, Clone, PartialEq)]
pub struct ReasoningTextContent {
    pub text: String,
}

/// The view of a [`ReasoningTextContent`].
#[verifier::ext_equal]
pub struct ReasoningTextContentView {
    pub text: Seq<char>,
}

impl View for ReasoningTextContent {
    type V = ReasoningTextContentView;

    open spec fn view(&self) -> ReasoningTextContentView {
        ReasoningTextContentView {
            text: self.text@,
        }
    }
}

impl Data for ReasoningTextContent {
    fn copied(&self) -> (out: ReasoningTextContent) {
        ReasoningTextContent {
            text: self.text.copied(),
        }
    }

    fn same(&self, other: &ReasoningTextContent) -> (yes: bool) {
        self.text.same(&other.text)
    }
}

/// The model's reasoning.
#[derive(Debug, Clone, PartialEq)]
pub struct ReasoningOutput {
    pub id: String,
    pub summary: Vec<Json>,
    pub content: Vec<ReasoningTextContent>,
    pub encrypted_content: Option<String>,
    pub status: Option<MessageStatus>,
}

/// The view of a [`ReasoningOutput`].
#[verifier::ext_equal]
pub struct ReasoningOutputView {
    pub id: Seq<char>,
    pub summary: Seq<JsonView>,
    pub content: Seq<ReasoningTextContentView>,
    pub encrypted_content: Option<Seq<char>>,
    pub status: Option<MessageStatus>,
}

impl View for ReasoningOutput {
    type V = ReasoningOutputView;

    open spec fn view(&self) -> ReasoningOutputView {
        ReasoningOutputView {
            id: self.id@,
            summary: crate::data::views(self.summary@),
            content: crate::data::views(self.content@),
            encrypted_content: crate::data::opt_view(self.encrypted_content),
            status: self.status,
        }
    }
}

impl Data for ReasoningOutput {
    fn copied(&self) -> (out: ReasoningOutput) {
        ReasoningOutput {
            id: self.id.copied(),
            summary: copy_vec(&self.summary),
            content: copy_vec(&self.content),
            encrypted_content: copy_opt(&self.encrypted_content),
            status: self.status,
        }
    }

    fn same(&self, other: &ReasoningOutput) -> (yes: bool) {
        self.id.same(&other.id)
            && same_vec(&self.summary, &other.summary)
            && same_vec(&self.content, &other.content)
            && same_opt(&self.encrypted_content, &other.encrypted_content)
            && self.status == other.status
    }
}

/// A summary that stands for earlier items.
#[derive(Debug, Clone, PartialEq)]
pub struct CompactionItem {
    pub id: Option<String>,
    pub encrypted_content: String,
}

/// The view of a [`CompactionItem`].
#[verifier::ext_equal]
pub struct CompactionItemView {
    pub id: Option<Seq<char>>,
    pub encrypted_content: Seq<char>,
}

impl View for CompactionItem {
    type V = CompactionItemView;

    open spec fn view(&self) -> CompactionItemView {
        CompactionItemView {
            id: crate::data::opt_view(self.id),
            encrypted_content: self.encrypted_content@,
        }
    }
}

impl Data for CompactionItem {
    fn copied(&self) -> (out: CompactionItem) {
        CompactionItem {
            id: copy_opt(&self.id),
            encrypted_content: self.encrypted_content.copied(),
        }
    }

    fn same(&self, other: &CompactionItem) -> (yes: bool) {
        same_opt(&self.id, &other.id)
            && self.encrypted_content.same(&other.encrypted_content)
    }
}

/// Text that the model wrote.
#[derive(Debug, Clone, PartialEq)]
pub struct OutputTextContent {
    pub text: String,
    pub annotations: Vec<Json>,
}

/// The view of a [`OutputTextContent`].
#[verifier::ext_equal]
pub struct OutputTextContentView {
    pub text: Seq<char>,
    pub annotations: Seq<JsonView>,
}

impl View for OutputTextContent {
    type V = OutputTextContentView;

    open spec fn view(&self) -> OutputTextContentView {
        OutputTextContentView {
            text: self.text@,
            annotations: crate::data::views(self.annotations@),
        }
    }
}

impl Data for OutputTextContent {
    fn copied(&self) -> (out: OutputTextContent) {
        OutputTextContent {
            text: self.text.copied(),
            annotations: copy_vec(&self.annotations),
        }
    }

    fn same(&self, other: &OutputTextContent) -> (yes: bool) {
        self.text.same(&other.text)
            && same_vec(&self.annotations, &other.annotations)
    }
}

/// A message that the model wrote.
#[derive(Debug, Clone, PartialEq)]
pub struct OutputMessage {
    pub id: String,
    pub role: String,
    pub status: MessageStatus,
    pub content: Vec<OutputTextContent>,
}

/// The view of a [`OutputMessage`].
#[verifier::ext_equal]
pub struct OutputMessageView {
    pub id: Seq<char>,
    pub role: Seq<char>,
    pub status: MessageStatus,
    pub content: Seq<OutputTextContentView>,
}

impl View for OutputMessage {
    type V = OutputMessageView;

    open spec fn view(&self) -> OutputMessageView {
        OutputMessageView {
            id: self.id@,
            role: self.role@,
            status: self.status,
            content: crate::data::views(self.content@),
        }
    }
}

impl Data for OutputMessage {
    fn copied(&self) -> (out: OutputMessage) {
        OutputMessage {
            id: self.id.copied(),
            role: self.role.copied(),
            status: self.status,
            content: copy_vec(&self.content),
        }
    }

    fn same(&self, other: &OutputMessage) -> (yes: bool) {
        self.id.same(&other.id)
            && self.role.same(&other.role)
            && self.status == other.status
            && same_vec(&self.content, &other.content)
    }
}

/// A page that a search found.
#[derive(Debug, Clone, PartialEq)]
pub struct WebSearchSource {
    pub url: String,
    pub title: Option<String>,
}

/// The view of a [`WebSearchSource`].
#[verifier::ext_equal]
pub struct WebSearchSourceView {
    pub url: Seq<char>,
    pub title: Option<Seq<char>>,
}

impl View for WebSearchSource {
    type V = WebSearchSourceView;

    open spec fn view(&self) -> WebSearchSourceView {
        WebSearchSourceView {
            url: self.url@,
            title: crate::data::opt_view(self.title),
        }
    }
}

impl Data for WebSearchSource {
    fn copied(&self) -> (out: WebSearchSource) {
        WebSearchSource {
            url: self.url.copied(),
            title: copy_opt(&self.title),
        }
    }

    fn same(&self, other: &WebSearchSource) -> (yes: bool) {
        self.url.same(&other.url) && same_opt(&self.title, &other.title)
    }
}

/// What a web search did, by its fields.
#[derive(Debug, Clone, PartialEq)]
pub struct WebSearchAction {
    pub fields: JsonObject,
}

/// The view of a [`WebSearchAction`].
#[verifier::ext_equal]
pub struct WebSearchActionView {
    pub fields: Map<Seq<char>, JsonView>,
}

impl View for WebSearchAction {
    type V = WebSearchActionView;

    open spec fn view(&self) -> WebSearchActionView {
        WebSearchActionView {
            fields: self.fields@,
        }
    }
}

impl Data for WebSearchAction {
    fn copied(&self) -> (out: WebSearchAction) {
        WebSearchAction {
            fields: self.fields.copied(),
        }
    }

    fn same(&self, other: &WebSearchAction) -> (yes: bool) {
        self.fields.same(&other.fields)
    }
}

/// A web search that was run.
#[derive(Debug, Clone, PartialEq)]
pub struct WebSearchCall {
    pub id: String,
    pub status: WebSearchCallStatus,
    pub action: WebSearchAction,
}

/// The view of a [`WebSearchCall`].
#[verifier::ext_equal]
pub struct WebSearchCallView {
    pub id: Seq<char>,
    pub status: WebSearchCallStatus,
    pub action: WebSearchActionView,
}

impl View for WebSearchCall {
    type V = WebSearchCallView;

    open spec fn view(&self) -> WebSearchCallView {
        WebSearchCallView {
            id: self.id@,
            status: self.status,
            action: self.action@,
        }
    }
}

impl Data for WebSearchCall {
    fn copied(&self) -> (out: WebSearchCall) {
        WebSearchCall {
            id: self.id.copied(),
            status: self.status,
            action: self.action.copied(),
        }
    }

    fn same(&self, other: &WebSearchCall) -> (yes: bool) {
        self.id.same(&other.id)
            && self.status == other.status
            && self.action.same(&other.action)
    }
}

/// Why an MCP call failed.
#[derive(Debug, Clone, PartialEq)]
pub enum McpCallError {
    Message(String),
    Unknown(Json),
}

/// The view of a [`McpCallError`].
#[verifier::ext_equal]
pub enum McpCallErrorView {
    Message(Seq<char>),
    Unknown(JsonView),
}

impl View for McpCallError {
    type V = McpCallErrorView;

    open spec fn view(&self) -> McpCallErrorView {
        match *self {
            McpCallError::Message(x) => McpCallErrorView::Message(x@),
            McpCallError::Unknown(x) => McpCallErrorView::Unknown(x@),
        }
    }
}

impl Data for McpCallError {
    fn copied(&self) -> (out: McpCallError) {
        match self {
            McpCallError::Message(x) => McpCallError::Message(x.copied()),
            McpCallError::Unknown(x) => McpCallError::Unknown(x.copied()),
        }
    }

    fn same(&self, other: &McpCallError) -> (yes: bool) {
        match (self, other) {
            (McpCallError::Message(a), McpCallError::Message(b)) => a.same(b),
            (McpCallError::Unknown(a), McpCallError::Unknown(b)) => a.same(b),
            _ => false,
        }
    }
}

/// A call of an MCP tool, run by the upstream server.
#[derive(Debug, Clone, PartialEq)]
pub struct McpCall {
    pub id: String,
    pub server_label: String,
    pub name: String,
    pub arguments: String,
    pub status: Option<McpCallStatus>,
    pub approval_request_id: Option<String>,
    pub output: Option<String>,
    pub error: Option<McpCallError>,
}

/// The view of a [`McpCall`].
#[verifier::ext_equal]
pub struct McpCallView {
    pub id: Seq<char>,
    pub server_label: Seq<char>,
    pub name: Seq<char>,
    pub arguments: Seq<char>,
    pub status: Option<McpCallStatus>,
    pub approval_request_id: Option<Seq<char>>,
    pub output: Option<Seq<char>>,
    pub error: Option<McpCallErrorView>,
}

impl View for McpCall {
    type V = McpCallView;

    open spec fn view(&self) -> McpCallView {
        McpCallView {
            id: self.id@,
            server_label: self.server_label@,
            name: self.name@,
            arguments: self.arguments@,
            status: self.status,
            approval_request_id: crate::data::opt_view(self.approval_request_id),
            output: crate::data::opt_view(self.output),
            error: crate::data::opt_view(self.error),
        }
    }
}

impl Data for McpCall {
    fn copied(&self) -> (out: McpCall) {
        McpCall {
            id: self.id.copied(),
            server_label: self.server_label.copied(),
            name: self.name.copied(),
            arguments: self.arguments.copied(),
            status: self.status,
            approval_request_id: copy_opt(&self.approval_request_id),
            output: copy_opt(&self.output),
            error: copy_opt(&self.error),
        }
    }

    fn same(&self, other: &McpCall) -> (yes: bool) {
        self.id.same(&other.id)
            && self.server_label.same(&other.server_label)
            && self.name.same(&other.name)
            && self.arguments.same(&other.arguments)
            && self.status == other.status
            && same_opt(&self.approval_request_id, &other.approval_request_id)
            && same_opt(&self.output, &other.output)
            && same_opt(&self.error, &other.error)
    }
}

/// The tools that an MCP server listed.
#[derive(Debug, Clone, PartialEq)]
pub struct McpListTools {
    pub id: String,
    pub server_label: String,
    pub tools: Vec<McpTool>,
    pub error: Option<String>,
}

/// The view of a [`McpListTools`].
#[verifier::ext_equal]
pub struct McpListToolsView {
    pub id: Seq<char>,
    pub server_label: Seq<char>,
    pub tools: Seq<McpToolView>,
    pub error: Option<Seq<char>>,
}

impl View for McpListTools {
    type V = McpListToolsView;

    open spec fn view(&self) -> McpListToolsView {
        McpListToolsView {
            id: self.id@,
            server_label: self.server_label@,
            tools: crate::data::views(self.tools@),
            error: crate::data::opt_view(self.error),
        }
    }
}

impl Data for McpListTools {
    fn copied(&self) -> (out: McpListTools) {
        McpListTools {
            id: self.id.copied(),
            server_label: self.server_label.copied(),
            tools: copy_vec(&self.tools),
            error: copy_opt(&self.error),
        }
    }

    fn same(&self, other: &McpListTools) -> (yes: bool) {
        self.id.same(&other.id)
            && self.server_label.same(&other.server_label)
            && same_vec(&self.tools, &other.tools)
            && same_opt(&self.error, &other.error)
    }
}

/// A call of an MCP tool, run by the gateway.
#[derive(Debug, Clone, PartialEq)]
pub struct McpToolCall {
    pub id: String,
    pub server: String,
    pub tool: String,
    pub arguments: Json,
    pub status: GatewayCallStatus,
    pub result: Option<Json>,
    pub error: Option<String>,
}

/// The view of a [`McpToolCall`].
#[verifier::ext_equal]
pub struct McpToolCallView {
    pub id: Seq<char>,
    pub server: Seq<char>,
    pub tool: Seq<char>,
    pub arguments: JsonView,
    pub status: GatewayCallStatus,
    pub result: Option<JsonView>,
    pub error: Option<Seq<char>>,
}

impl View for McpToolCall {
    type V = McpToolCallView;

    open spec fn view(&self) -> McpToolCallView {
        McpToolCallView {
            id: self.id@,
            server: self.server@,
            tool: self.tool@,
            arguments: self.arguments@,
            status: self.status,
            result: crate::data::opt_view(self.result),
            error: crate::data::opt_view(self.error),
        }
    }
}

impl Data for McpToolCall {
    fn copied(&self) -> (out: McpToolCall) {
        McpToolCall {
            id: self.id.copied(),
            server: self.server.copied(),
            tool: self.tool.copied(),
            arguments: self.arguments.copied(),
            status: self.status,
            result: copy_opt(&self.result),
            error: copy_opt(&self.error),
        }
    }

    fn same(&self, other: &McpToolCall) -> (yes: bool) {
        self.id.same(&other.id)
            && self.server.same(&other.server)
            && self.tool.same(&other.tool)
            && self.arguments.same(&other.arguments)
            && self.status == other.status
            && same_opt(&self.result, &other.result)
            && same_opt(&self.error, &other.error)
    }
}

/// An item of a response.
#[derive(Debug, Clone, PartialEq)]
pub enum OutputItem {
    Message(OutputMessage),
    Reasoning(ReasoningOutput),
    FunctionCall(FunctionToolCall),
    CustomToolCall(CustomToolCall),
    WebSearchCall(WebSearchCall),
    McpCall(McpCall),
    McpListTools(McpListTools),
    McpToolCall(McpToolCall),
    ToolSearchCall(ToolSearchCall),
    Compaction(CompactionItem),
}

/// The view of a [`OutputItem`].
#[verifier::ext_equal]
pub enum OutputItemView {
    Message(OutputMessageView),
    Reasoning(ReasoningOutputView),
    FunctionCall(FunctionToolCallView),
    CustomToolCall(CustomToolCallView),
    WebSearchCall(WebSearchCallView),
    McpCall(McpCallView),
    McpListTools(McpListToolsView),
    McpToolCall(McpToolCallView),
    ToolSearchCall(ToolSearchCallView),
    Compaction(CompactionItemView),
}

impl View for OutputItem {
    type V = OutputItemView;

    open spec fn view(&self) -> OutputItemView {
        match *self {
            OutputItem::Message(x) => OutputItemView::Message(x@),
            OutputItem::Reasoning(x) => OutputItemView::Reasoning(x@),
            OutputItem::FunctionCall(x) => OutputItemView::FunctionCall(x@),
            OutputItem::CustomToolCall(x) => OutputItemView::CustomToolCall(x@),
            OutputItem::WebSearchCall(x) => OutputItemView::WebSearchCall(x@),
            OutputItem::McpCall(x) => OutputItemView::McpCall(x@),
            OutputItem::McpListTools(x) => OutputItemView::McpListTools(x@),
            OutputItem::McpToolCall(x) => OutputItemView::McpToolCall(x@),
            OutputItem::ToolSearchCall(x) => OutputItemView::ToolSearchCall(x@),
            OutputItem::Compaction(x) => OutputItemView::Compaction(x@),
        }
    }
}

impl Data for OutputItem {
    fn copied(&self) -> (out: OutputItem) {
        match self {
            OutputItem::Message(x) => OutputItem::Message(x.copied()),
            OutputItem::Reasoning(x) => OutputItem::Reasoning(x.copied()),
            OutputItem::FunctionCall(x) => OutputItem::FunctionCall(x.copied()),
            OutputItem::CustomToolCall(x) => OutputItem::CustomToolCall(x.copied()),
            OutputItem::WebSearchCall(x) => OutputItem::WebSearchCall(x.copied()),
            OutputItem::McpCall(x) => OutputItem::McpCall(x.copied()),
            OutputItem::McpListTools(x) => OutputItem::McpListTools(x.copied()),
            OutputItem::McpToolCall(x) => OutputItem::McpToolCall(x.copied()),
            OutputItem::ToolSearchCall(x) => OutputItem::ToolSearchCall(x.copied()),
            OutputItem::Compaction(x) => OutputItem::Compaction(x.copied()),
        }
    }

    fn same(&self, other: &OutputItem) -> (yes: bool) {
        match (self, other) {
            (OutputItem::Message(a), OutputItem::Message(b)) => a.same(b),
            (OutputItem::Reasoning(a), OutputItem::Reasoning(b)) => a.same(b),
            (OutputItem::FunctionCall(a), OutputItem::FunctionCall(b)) => a.same(b),
            (OutputItem::CustomToolCall(a), OutputItem::CustomToolCall(b)) => a.same(b),
            (OutputItem::WebSearchCall(a), OutputItem::WebSearchCall(b)) => a.same(b),
            (OutputItem::McpCall(a), OutputItem::McpCall(b)) => a.same(b),
            (OutputItem::McpListTools(a), OutputItem::McpListTools(b)) => a.same(b),
            (OutputItem::McpToolCall(a), OutputItem::McpToolCall(b)) => a.same(b),
            (OutputItem::ToolSearchCall(a), OutputItem::ToolSearchCall(b)) => a.same(b),
            (OutputItem::Compaction(a), OutputItem::Compaction(b)) => a.same(b),
            _ => false,
        }
    }
}

/// An item of a request's input.
#[derive(Debug, Clone, PartialEq)]
pub enum InputItem {
    Message(InputMessage),
    FunctionCall(InputFunctionToolCall),
    FunctionCallOutput(FunctionToolResultMessage),
    CustomToolCall(CustomToolCall),
    CustomToolCallOutput(CustomToolCallOutputMessage),
    ToolSearchCall(InputToolSearchCall),
    ToolSearchOutput(ToolSearchOutputMessage),
    Reasoning(ReasoningOutput),
    McpListTools(McpListTools),
    Compaction(CompactionItem),
    CompactionTrigger,
    Unknown,
}

/// The view of a [`InputItem`].
#[verifier::ext_equal]
pub enum InputItemView {
    Message(InputMessageView),
    FunctionCall(InputFunctionToolCallView),
    FunctionCallOutput(FunctionToolResultMessageView),
    CustomToolCall(CustomToolCallView),
    CustomToolCallOutput(CustomToolCallOutputMessageView),
    ToolSearchCall(InputToolSearchCallView),
    ToolSearchOutput(ToolSearchOutputMessageView),
    Reasoning(ReasoningOutputView),
    McpListTools(McpListToolsView),
    Compaction(CompactionItemView),
    CompactionTrigger,
    Unknown,
}

impl View for InputItem {
    type V = InputItemView;

    open spec fn view(&self) -> InputItemView {
        match *self {
            InputItem::Message(x) => InputItemView::Message(x@),
            InputItem::FunctionCall(x) => InputItemView::FunctionCall(x@),
            InputItem::FunctionCallOutput(x) => InputItemView::FunctionCallOutput(x@),
            InputItem::CustomToolCall(x) => InputItemView::CustomToolCall(x@),
            InputItem::CustomToolCallOutput(x) => InputItemView::CustomToolCallOutput(x@),
            InputItem::ToolSearchCall(x) => InputItemView::ToolSearchCall(x@),
            InputItem::ToolSearchOutput(x) => InputItemView::ToolSearchOutput(x@),
            InputItem::Reasoning(x) => InputItemView::Reasoning(x@),
            InputItem::McpListTools(x) => InputItemView::McpListTools(x@),
            InputItem::Compaction(x) => InputItemView::Compaction(x@),
            InputItem::CompactionTrigger => InputItemView::CompactionTrigger,
            InputItem::Unknown => InputItemView::Unknown,
        }
    }
}

impl Data for InputItem {
    fn copied(&self) -> (out: InputItem) {
        match self {
            InputItem::Message(x) => InputItem::Message(x.copied()),
            InputItem::FunctionCall(x) => InputItem::FunctionCall(x.copied()),
            InputItem::FunctionCallOutput(x) => InputItem::FunctionCallOutput(x.copied()),
            InputItem::CustomToolCall(x) => InputItem::CustomToolCall(x.copied()),
            InputItem::CustomToolCallOutput(x) => InputItem::CustomToolCallOutput(x.copied()),
            InputItem::ToolSearchCall(x) => InputItem::ToolSearchCall(x.copied()),
            InputItem::ToolSearchOutput(x) => InputItem::ToolSearchOutput(x.copied()),
            InputItem::Reasoning(x) => InputItem::Reasoning(x.copied()),
            InputItem::McpListTools(x) => InputItem::McpListTools(x.copied()),
            InputItem::Compaction(x) => InputItem::Compaction(x.copied()),
            InputItem::CompactionTrigger => InputItem::CompactionTrigger,
            InputItem::Unknown => InputItem::Unknown,
        }
    }

    fn same(&self, other: &InputItem) -> (yes: bool) {
        match (self, other) {
            (InputItem::Message(a), InputItem::Message(b)) => a.same(b),
            (InputItem::FunctionCall(a), InputItem::FunctionCall(b)) => a.same(b),
            (InputItem::FunctionCallOutput(a), InputItem::FunctionCallOutput(b)) => a.same(b),
            (InputItem::CustomToolCall(a), InputItem::CustomToolCall(b)) => a.same(b),
            (InputItem::CustomToolCallOutput(a), InputItem::CustomToolCallOutput(b)) => a.same(b),
            (InputItem::ToolSearchCall(a), InputItem::ToolSearchCall(b)) => a.same(b),
            (InputItem::ToolSearchOutput(a), InputItem::ToolSearchOutput(b)) => a.same(b),
            (InputItem::Reasoning(a), InputItem::Reasoning(b)) => a.same(b),
            (InputItem::McpListTools(a), InputItem::McpListTools(b)) => a.same(b),
            (InputItem::Compaction(a), InputItem::Compaction(b)) => a.same(b),
            (InputItem::CompactionTrigger, InputItem::CompactionTrigger) => true,
            (InputItem::Unknown, InputItem::Unknown) => true,
            _ => false,
        }
    }
}

/// The input of a request.
#[derive(Debug, Clone, PartialEq)]
pub enum ResponsesInput {
    Text(String),
    Items(Vec<InputItem>),
}

/// The view of a [`ResponsesInput`].
#[verifier::ext_equal]
pub enum ResponsesInputView {
    Text(Seq<char>),
    Items(Seq<InputItemView>),
}

impl View for ResponsesInput {
    type V = ResponsesInputView;

    open spec fn view(&self) -> ResponsesInputView {
        match *self {
            ResponsesInput::Text(x) => ResponsesInputView::Text(x@),
            ResponsesInput::Items(x) => ResponsesInputView::Items(crate::data::views(x@)),
        }
    }
}

impl Data for ResponsesInput {
    fn copied(&self) -> (out: ResponsesInput) {
        match self {
            ResponsesInput::Text(x) => ResponsesInput::Text(x.copied()),
            ResponsesInput::Items(x) => ResponsesInput::Items(copy_vec(x)),
        }
    }

    fn same(&self, other: &ResponsesInput) -> (yes: bool) {
        match (self, other) {
            (ResponsesInput::Text(a), ResponsesInput::Text(b)) => a.same(b),
            (ResponsesInput::Items(a), ResponsesInput::Items(b)) => same_vec(a, b),
            _ => false,
        }
    }
}

} // verus!
