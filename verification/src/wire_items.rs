//! The JSON shapes of output items.
use vstd::prelude::*;

use crate::data::copy_vec;
#[allow(unused_imports)]
use crate::items::{
    CompactionItem, CompactionItemView, CustomToolCall, CustomToolCallView, FunctionToolCall,
    FunctionToolCallView, GatewayCallStatus, McpCall, McpCallError, McpCallErrorView, McpCallStatus,
    McpCallView, McpListTools, McpListToolsView, McpToolCall, McpToolCallView, MessageStatus,
    OutputItem, OutputItemView, OutputMessage, OutputMessageView, OutputTextContent,
    OutputTextContentView, ReasoningOutput, ReasoningOutputView, ReasoningTextContent,
    ReasoningTextContentView, ToolSearchCall, ToolSearchCallView, WebSearchAction,
    WebSearchActionView, WebSearchCall, WebSearchCallStatus, WebSearchCallView,
};
#[allow(unused_imports)]
use crate::json::{Json, JsonObject, JsonView};
use crate::text::same_text;
use crate::tools::{McpTool, ToolSearchExecution, ToolSearchStatus};
use crate::wire::{
    read_list_or_empty, read_opt_text, read_text_or, read_values_or_empty, set_json, set_text,
    write_list, FromJson, ToJson,
};
use crate::wire_tools::read_execution;

verus! {

/// The wire text of the status of a message or a call.
pub open spec fn message_status_text(status: MessageStatus) -> Seq<char> {
    match status {
        MessageStatus::InProgress => "in_progress"@,
        MessageStatus::Completed => "completed"@,
        MessageStatus::Incomplete => "incomplete"@,
    }
}

/// What a wire text says of the status of a message or a call; nothing where it is another text.
pub open spec fn message_status_of(text: Seq<char>) -> Option<MessageStatus> {
    if text == "in_progress"@ {
        Some(MessageStatus::InProgress)
    } else if text == "completed"@ {
        Some(MessageStatus::Completed)
    } else if text == "incomplete"@ {
        Some(MessageStatus::Incomplete)
    } else {
        None
    }
}

impl MessageStatus {
    /// The wire text of this status.
    pub fn as_str(self) -> (text: &'static str)
        ensures
            text@ == message_status_text(self),
    {
        match self {
            MessageStatus::InProgress => "in_progress",
            MessageStatus::Completed => "completed",
            MessageStatus::Incomplete => "incomplete",
        }
    }

    /// What a wire text says; nothing where it is another text.
    pub fn from_text(text: &str) -> (out: Option<MessageStatus>)
        ensures
            out == message_status_of(text@),
    {
        if same_text(text, "in_progress") {
            Some(MessageStatus::InProgress)
        } else if same_text(text, "completed") {
            Some(MessageStatus::Completed)
        } else if same_text(text, "incomplete") {
            Some(MessageStatus::Incomplete)
        } else {
            None
        }
    }
}

/// A status that may be absent or null, and nothing where the field is another
/// text or no text.
pub open spec fn opt_message_status(
    fields: Map<Seq<char>, JsonView>,
    key: Seq<char>,
) -> Option<Option<MessageStatus>> {
    match crate::wire::opt_text(fields, key) {
        Some(Some(t)) => match message_status_of(t) {
            Some(s) => Some(Some(s)),
            None => None,
        },
        Some(None) => Some(None),
        None => None,
    }
}

/// Reads a status that may be absent or null.
pub fn read_opt_message_status(
    fields: &JsonObject,
    key: &str,
) -> (out: Option<Option<MessageStatus>>)
    ensures
        out == opt_message_status(fields@, key@),
{
    match read_opt_text(fields, key) {
        Some(Some(t)) => match MessageStatus::from_text(t.as_str()) {
            Some(s) => Some(Some(s)),
            None => None,
        },
        Some(None) => Some(None),
        None => None,
    }
}

/// The wire text of the status of a tool search.
pub open spec fn tool_search_status_text(status: ToolSearchStatus) -> Seq<char> {
    match status {
        ToolSearchStatus::InProgress => "in_progress"@,
        ToolSearchStatus::Completed => "completed"@,
        ToolSearchStatus::Incomplete => "incomplete"@,
    }
}

/// What a wire text says of the status of a tool search; nothing where it is another text.
pub open spec fn tool_search_status_of(text: Seq<char>) -> Option<ToolSearchStatus> {
    if text == "in_progress"@ {
        Some(ToolSearchStatus::InProgress)
    } else if text == "completed"@ {
        Some(ToolSearchStatus::Completed)
    } else if text == "incomplete"@ {
        Some(ToolSearchStatus::Incomplete)
    } else {
        None
    }
}

impl ToolSearchStatus {
    /// The wire text of this status.
    pub fn as_str(self) -> (text: &'static str)
        ensures
            text@ == tool_search_status_text(self),
    {
        match self {
            ToolSearchStatus::InProgress => "in_progress",
            ToolSearchStatus::Completed => "completed",
            ToolSearchStatus::Incomplete => "incomplete",
        }
    }

    /// What a wire text says; nothing where it is another text.
    pub fn from_text(text: &str) -> (out: Option<ToolSearchStatus>)
        ensures
            out == tool_search_status_of(text@),
    {
        if same_text(text, "in_progress") {
            Some(ToolSearchStatus::InProgress)
        } else if same_text(text, "completed") {
            Some(ToolSearchStatus::Completed)
        } else if same_text(text, "incomplete") {
            Some(ToolSearchStatus::Incomplete)
        } else {
            None
        }
    }
}

/// A status that may be absent or null, and nothing where the field is another
/// text or no text.
pub open spec fn opt_tool_search_status(
    fields: Map<Seq<char>, JsonView>,
    key: Seq<char>,
) -> Option<Option<ToolSearchStatus>> {
    match crate::wire::opt_text(fields, key) {
        Some(Some(t)) => match tool_search_status_of(t) {
            Some(s) => Some(Some(s)),
            None => None,
        },
        Some(None) => Some(None),
        None => None,
    }
}

/// Reads a status that may be absent or null.
pub fn read_opt_tool_search_status(
    fields: &JsonObject,
    key: &str,
) -> (out: Option<Option<ToolSearchStatus>>)
    ensures
        out == opt_tool_search_status(fields@, key@),
{
    match read_opt_text(fields, key) {
        Some(Some(t)) => match ToolSearchStatus::from_text(t.as_str()) {
            Some(s) => Some(Some(s)),
            None => None,
        },
        Some(None) => Some(None),
        None => None,
    }
}

/// The wire text of the status of an MCP call.
pub open spec fn mcp_call_status_text(status: McpCallStatus) -> Seq<char> {
    match status {
        McpCallStatus::InProgress => "in_progress"@,
        McpCallStatus::Calling => "calling"@,
        McpCallStatus::Completed => "completed"@,
        McpCallStatus::Incomplete => "incomplete"@,
        McpCallStatus::Failed => "failed"@,
    }
}

/// What a wire text says of the status of an MCP call; nothing where it is another text.
pub open spec fn mcp_call_status_of(text: Seq<char>) -> Option<McpCallStatus> {
    if text == "in_progress"@ {
        Some(McpCallStatus::InProgress)
    } else if text == "calling"@ {
        Some(McpCallStatus::Calling)
    } else if text == "completed"@ {
        Some(McpCallStatus::Completed)
    } else if text == "incomplete"@ {
        Some(McpCallStatus::Incomplete)
    } else if text == "failed"@ {
        Some(McpCallStatus::Failed)
    } else {
        None
    }
}

impl McpCallStatus {
    /// The wire text of this status.
    pub fn as_str(self) -> (text: &'static str)
        ensures
            text@ == mcp_call_status_text(self),
    {
        match self {
            McpCallStatus::InProgress => "in_progress",
            McpCallStatus::Calling => "calling",
            McpCallStatus::Completed => "completed",
            McpCallStatus::Incomplete => "incomplete",
            McpCallStatus::Failed => "failed",
        }
    }

    /// What a wire text says; nothing where it is another text.
    pub fn from_text(text: &str) -> (out: Option<McpCallStatus>)
        ensures
            out == mcp_call_status_of(text@),
    {
        if same_text(text, "in_progress") {
            Some(McpCallStatus::InProgress)
        } else if same_text(text, "calling") {
            Some(McpCallStatus::Calling)
        } else if same_text(text, "completed") {
            Some(McpCallStatus::Completed)
        } else if same_text(text, "incomplete") {
            Some(McpCallStatus::Incomplete)
        } else if same_text(text, "failed") {
            Some(McpCallStatus::Failed)
        } else {
            None
        }
    }
}

/// A status that may be absent or null, and nothing where the field is another
/// text or no text.
pub open spec fn opt_mcp_call_status(
    fields: Map<Seq<char>, JsonView>,
    key: Seq<char>,
) -> Option<Option<McpCallStatus>> {
    match crate::wire::opt_text(fields, key) {
        Some(Some(t)) => match mcp_call_status_of(t) {
            Some(s) => Some(Some(s)),
            None => None,
        },
        Some(None) => Some(None),
        None => None,
    }
}

/// Reads a status that may be absent or null.
pub fn read_opt_mcp_call_status(
    fields: &JsonObject,
    key: &str,
) -> (out: Option<Option<McpCallStatus>>)
    ensures
        out == opt_mcp_call_status(fields@, key@),
{
    match read_opt_text(fields, key) {
        Some(Some(t)) => match McpCallStatus::from_text(t.as_str()) {
            Some(s) => Some(Some(s)),
            None => None,
        },
        Some(None) => Some(None),
        None => None,
    }
}

/// The wire text of the status of a web search.
pub open spec fn web_search_call_status_text(status: WebSearchCallStatus) -> Seq<char> {
    match status {
        WebSearchCallStatus::InProgress => "in_progress"@,
        WebSearchCallStatus::Searching => "searching"@,
        WebSearchCallStatus::Completed => "completed"@,
        WebSearchCallStatus::Failed => "failed"@,
    }
}

/// What a wire text says of the status of a web search; nothing where it is another text.
pub open spec fn web_search_call_status_of(text: Seq<char>) -> Option<WebSearchCallStatus> {
    if text == "in_progress"@ {
        Some(WebSearchCallStatus::InProgress)
    } else if text == "searching"@ {
        Some(WebSearchCallStatus::Searching)
    } else if text == "completed"@ {
        Some(WebSearchCallStatus::Completed)
    } else if text == "failed"@ {
        Some(WebSearchCallStatus::Failed)
    } else {
        None
    }
}

impl WebSearchCallStatus {
    /// The wire text of this status.
    pub fn as_str(self) -> (text: &'static str)
        ensures
            text@ == web_search_call_status_text(self),
    {
        match self {
            WebSearchCallStatus::InProgress => "in_progress",
            WebSearchCallStatus::Searching => "searching",
            WebSearchCallStatus::Completed => "completed",
            WebSearchCallStatus::Failed => "failed",
        }
    }

    /// What a wire text says; nothing where it is another text.
    pub fn from_text(text: &str) -> (out: Option<WebSearchCallStatus>)
        ensures
            out == web_search_call_status_of(text@),
    {
        if same_text(text, "in_progress") {
            Some(WebSearchCallStatus::InProgress)
        } else if same_text(text, "searching") {
            Some(WebSearchCallStatus::Searching)
        } else if same_text(text, "completed") {
            Some(WebSearchCallStatus::Completed)
        } else if same_text(text, "failed") {
            Some(WebSearchCallStatus::Failed)
        } else {
            None
        }
    }
}

/// A status that may be absent or null, and nothing where the field is another
/// text or no text.
pub open spec fn opt_web_search_call_status(
    fields: Map<Seq<char>, JsonView>,
    key: Seq<char>,
) -> Option<Option<WebSearchCallStatus>> {
    match crate::wire::opt_text(fields, key) {
        Some(Some(t)) => match web_search_call_status_of(t) {
            Some(s) => Some(Some(s)),
            None => None,
        },
        Some(None) => Some(None),
        None => None,
    }
}

/// Reads a status that may be absent or null.
pub fn read_opt_web_search_call_status(
    fields: &JsonObject,
    key: &str,
) -> (out: Option<Option<WebSearchCallStatus>>)
    ensures
        out == opt_web_search_call_status(fields@, key@),
{
    match read_opt_text(fields, key) {
        Some(Some(t)) => match WebSearchCallStatus::from_text(t.as_str()) {
            Some(s) => Some(Some(s)),
            None => None,
        },
        Some(None) => Some(None),
        None => None,
    }
}

/// The wire text of the status of a call that the gateway runs.
pub open spec fn gateway_call_status_text(status: GatewayCallStatus) -> Seq<char> {
    match status {
        GatewayCallStatus::InProgress => "in_progress"@,
        GatewayCallStatus::Completed => "completed"@,
        GatewayCallStatus::Failed => "failed"@,
    }
}

/// What a wire text says of the status of a call that the gateway runs; nothing where it is another text.
pub open spec fn gateway_call_status_of(text: Seq<char>) -> Option<GatewayCallStatus> {
    if text == "in_progress"@ {
        Some(GatewayCallStatus::InProgress)
    } else if text == "completed"@ {
        Some(GatewayCallStatus::Completed)
    } else if text == "failed"@ {
        Some(GatewayCallStatus::Failed)
    } else {
        None
    }
}

impl GatewayCallStatus {
    /// The wire text of this status.
    pub fn as_str(self) -> (text: &'static str)
        ensures
            text@ == gateway_call_status_text(self),
    {
        match self {
            GatewayCallStatus::InProgress => "in_progress",
            GatewayCallStatus::Completed => "completed",
            GatewayCallStatus::Failed => "failed",
        }
    }

    /// What a wire text says; nothing where it is another text.
    pub fn from_text(text: &str) -> (out: Option<GatewayCallStatus>)
        ensures
            out == gateway_call_status_of(text@),
    {
        if same_text(text, "in_progress") {
            Some(GatewayCallStatus::InProgress)
        } else if same_text(text, "completed") {
            Some(GatewayCallStatus::Completed)
        } else if same_text(text, "failed") {
            Some(GatewayCallStatus::Failed)
        } else {
            None
        }
    }
}

/// The wire text that says who runs a search.
pub open spec fn execution_text(execution: ToolSearchExecution) -> Seq<char> {
    match execution {
        ToolSearchExecution::Client => "client"@,
        ToolSearchExecution::Server => "server"@,
    }
}

impl ToolSearchExecution {
    /// The wire text that says who runs the search.
    pub fn as_str(self) -> (text: &'static str)
        ensures
            text@ == execution_text(self),
    {
        match self {
            ToolSearchExecution::Client => "client",
            ToolSearchExecution::Server => "server",
        }
    }
}

impl FromJson for OutputTextContent {
    open spec fn of_json(value: JsonView) -> Option<OutputTextContentView> {
        match value {
            JsonView::Object(fields) => match (
                crate::json::text_field(fields, "text"@),
                crate::wire::values_or_empty(fields, "annotations"@),
            ) {
                (Some(text), Some(annotations)) => Some(
                    OutputTextContentView { text, annotations },
                ),
                _ => None,
            },
            _ => None,
        }
    }

    fn from_json(value: &Json) -> (out: Option<OutputTextContent>) {
        match value {
            Json::Object(fields) => match (
                fields.get_str("text"),
                read_values_or_empty(fields, "annotations"),
            ) {
                (Some(text), Some(annotations)) => Some(
                    OutputTextContent { text: text.to_owned(), annotations },
                ),
                _ => None,
            },
            _ => None,
        }
    }
}

/// The JSON value of a list of values.
pub fn values_json(values: &Vec<Json>) -> (out: Json)
    ensures
        out@ == JsonView::Array(crate::data::views(values@)),
{
    let out = copy_vec(values);
    proof {
        assert(crate::json::array_view(out@) =~= crate::data::views(out@));
    }
    Json::Array(out)
}

impl ToJson for OutputTextContent {
    open spec fn json_of(c: OutputTextContentView) -> JsonView {
        JsonView::Object(
            Map::<Seq<char>, JsonView>::empty().insert(
                "type"@,
                JsonView::Text("output_text"@),
            ).insert("text"@, JsonView::Text(c.text)).insert(
                "annotations"@,
                JsonView::Array(c.annotations),
            ),
        )
    }

    fn to_json(&self) -> (out: Json) {
        let mut fields = JsonObject::new();
        fields.set_str("type", "output_text");
        fields.set_str("text", self.text.as_str());
        fields.set("annotations", values_json(&self.annotations));
        Json::Object(fields)
    }
}

impl FromJson for ReasoningTextContent {
    open spec fn of_json(value: JsonView) -> Option<ReasoningTextContentView> {
        match value {
            JsonView::Object(fields) => match crate::json::text_field(fields, "text"@) {
                Some(text) => Some(ReasoningTextContentView { text }),
                None => None,
            },
            _ => None,
        }
    }

    fn from_json(value: &Json) -> (out: Option<ReasoningTextContent>) {
        match value {
            Json::Object(fields) => match fields.get_str("text") {
                Some(text) => Some(ReasoningTextContent { text: text.to_owned() }),
                None => None,
            },
            _ => None,
        }
    }
}

impl ToJson for ReasoningTextContent {
    open spec fn json_of(c: ReasoningTextContentView) -> JsonView {
        JsonView::Object(
            Map::<Seq<char>, JsonView>::empty().insert(
                "type"@,
                JsonView::Text("reasoning_text"@),
            ).insert("text"@, JsonView::Text(c.text)),
        )
    }

    fn to_json(&self) -> (out: Json) {
        let mut fields = JsonObject::new();
        fields.set_str("type", "reasoning_text");
        fields.set_str("text", self.text.as_str());
        Json::Object(fields)
    }
}

/// A message read from its fields.
pub open spec fn output_message_of(fields: Map<Seq<char>, JsonView>) -> Option<OutputMessageView> {
    match (
        crate::wire::list_or_empty::<OutputTextContent>(fields, "content"@),
        opt_message_status(fields, "status"@),
    ) {
        (Some(content), Some(status)) => Some(
            OutputMessageView {
                id: crate::wire::text_or(fields, "id"@, Seq::empty()),
                role: crate::wire::text_or(fields, "role"@, "assistant"@),
                status: match status {
                    Some(s) => s,
                    None => MessageStatus::Completed,
                },
                content,
            },
        ),
        _ => None,
    }
}

fn read_output_message(fields: &JsonObject) -> (out: Option<OutputMessage>)
    ensures
        crate::data::opt_view(out) == output_message_of(fields@),
{
    match (
        read_list_or_empty::<OutputTextContent>(fields, "content"),
        read_opt_message_status(fields, "status"),
    ) {
        (Some(content), Some(status)) => Some(
            OutputMessage {
                id: read_text_or_empty(fields, "id"),
                role: read_text_or(fields, "role", "assistant"),
                status: match status {
                    Some(s) => s,
                    None => MessageStatus::Completed,
                },
                content,
            },
        ),
        _ => None,
    }
}

/// Reads a text, or an empty one where the field is absent or no text.
pub fn read_text_or_empty(fields: &JsonObject, key: &str) -> (out: String)
    ensures
        out@ == crate::wire::text_or(fields@, key@, Seq::empty()),
{
    match fields.get_str(key) {
        Some(t) => t.to_owned(),
        None => String::new(),
    }
}

/// Reasoning read from its fields.
pub open spec fn reasoning_of(fields: Map<Seq<char>, JsonView>) -> Option<ReasoningOutputView> {
    match (
        crate::wire::values_or_empty(fields, "summary"@),
        crate::wire::list_or_empty::<ReasoningTextContent>(fields, "content"@),
        crate::wire::opt_text(fields, "encrypted_content"@),
        opt_message_status(fields, "status"@),
    ) {
        (Some(summary), Some(content), Some(encrypted_content), Some(status)) => Some(
            ReasoningOutputView {
                id: crate::wire::text_or(fields, "id"@, Seq::empty()),
                summary,
                content,
                encrypted_content,
                status,
            },
        ),
        _ => None,
    }
}

/// Reasoning read from its fields.
pub fn read_reasoning(fields: &JsonObject) -> (out: Option<ReasoningOutput>)
    ensures
        crate::data::opt_view(out) == reasoning_of(fields@),
{
    match (
        read_values_or_empty(fields, "summary"),
        read_list_or_empty::<ReasoningTextContent>(fields, "content"),
        read_opt_text(fields, "encrypted_content"),
        read_opt_message_status(fields, "status"),
    ) {
        (Some(summary), Some(content), Some(encrypted_content), Some(status)) => Some(
            ReasoningOutput {
                id: read_text_or_empty(fields, "id"),
                summary,
                content,
                encrypted_content,
                status,
            },
        ),
        _ => None,
    }
}

/// A function call read from its fields.
pub open spec fn function_call_of(
    fields: Map<Seq<char>, JsonView>,
) -> Option<FunctionToolCallView> {
    match (
        crate::json::text_field(fields, "name"@),
        crate::wire::opt_text(fields, "namespace"@),
        opt_message_status(fields, "status"@),
    ) {
        (Some(name), Some(namespace), Some(status)) => Some(
            FunctionToolCallView {
                id: crate::wire::text_or(fields, "id"@, Seq::empty()),
                call_id: crate::wire::text_or(fields, "call_id"@, Seq::empty()),
                name,
                namespace,
                arguments: crate::wire::text_or(fields, "arguments"@, Seq::empty()),
                status: match status {
                    Some(s) => s,
                    None => MessageStatus::Completed,
                },
            },
        ),
        _ => None,
    }
}

fn read_function_call(fields: &JsonObject) -> (out: Option<FunctionToolCall>)
    ensures
        crate::data::opt_view(out) == function_call_of(fields@),
{
    match (
        fields.get_str("name"),
        read_opt_text(fields, "namespace"),
        read_opt_message_status(fields, "status"),
    ) {
        (Some(name), Some(namespace), Some(status)) => Some(
            FunctionToolCall {
                id: read_text_or_empty(fields, "id"),
                call_id: read_text_or_empty(fields, "call_id"),
                name: name.to_owned(),
                namespace,
                arguments: read_text_or_empty(fields, "arguments"),
                status: match status {
                    Some(s) => s,
                    None => MessageStatus::Completed,
                },
            },
        ),
        _ => None,
    }
}

/// A custom call read from its fields.
pub open spec fn custom_call_of(fields: Map<Seq<char>, JsonView>) -> Option<CustomToolCallView> {
    match (crate::json::text_field(fields, "name"@), opt_message_status(fields, "status"@)) {
        (Some(name), Some(status)) => Some(
            CustomToolCallView {
                id: crate::wire::text_or(fields, "id"@, Seq::empty()),
                status,
                call_id: crate::wire::text_or(fields, "call_id"@, Seq::empty()),
                name,
                input: crate::wire::text_or(fields, "input"@, Seq::empty()),
            },
        ),
        _ => None,
    }
}

/// A custom call read from its fields.
pub fn read_custom_call(fields: &JsonObject) -> (out: Option<CustomToolCall>)
    ensures
        crate::data::opt_view(out) == custom_call_of(fields@),
{
    match (fields.get_str("name"), read_opt_message_status(fields, "status")) {
        (Some(name), Some(status)) => Some(
            CustomToolCall {
                id: read_text_or_empty(fields, "id"),
                status,
                call_id: read_text_or_empty(fields, "call_id"),
                name: name.to_owned(),
                input: read_text_or_empty(fields, "input"),
            },
        ),
        _ => None,
    }
}

/// A web search read from its fields.
pub open spec fn web_search_of(fields: Map<Seq<char>, JsonView>) -> Option<WebSearchCallView> {
    match (
        opt_web_search_call_status(fields, "status"@),
        crate::json::object_field(fields, "action"@),
    ) {
        (Some(Some(status)), Some(JsonView::Object(action))) => Some(
            WebSearchCallView {
                id: crate::wire::text_or(fields, "id"@, Seq::empty()),
                status,
                action: WebSearchActionView { fields: action },
            },
        ),
        _ => None,
    }
}

/// A web search read from its fields.
pub fn read_web_search(fields: &JsonObject) -> (out: Option<WebSearchCall>)
    ensures
        crate::data::opt_view(out) == web_search_of(fields@),
{
    match (read_opt_web_search_call_status(fields, "status"), fields.get("action")) {
        (Some(Some(status)), Some(Json::Object(action))) => Some(
            WebSearchCall {
                id: read_text_or_empty(fields, "id"),
                status,
                action: WebSearchAction { fields: action.copy() },
            },
        ),
        _ => None,
    }
}

/// The error of an MCP call: none, a message, or a value of any other shape.
pub open spec fn mcp_error_of(value: Option<JsonView>) -> Option<McpCallErrorView> {
    match value {
        None => None,
        Some(JsonView::Null) => None,
        Some(JsonView::Text(t)) => Some(McpCallErrorView::Message(t)),
        Some(v) => Some(McpCallErrorView::Unknown(v)),
    }
}

fn read_mcp_error(value: Option<&Json>) -> (out: Option<McpCallError>)
    ensures
        crate::data::opt_view(out) == mcp_error_of(crate::json::ref_view(value)),
{
    match value {
        None => None,
        Some(Json::Null) => None,
        Some(Json::Text(t)) => Some(McpCallError::Message(t.clone())),
        Some(v) => Some(McpCallError::Unknown(v.copy())),
    }
}

/// An MCP call read from its fields.
pub open spec fn mcp_call_of(fields: Map<Seq<char>, JsonView>) -> Option<McpCallView> {
    match (
        (crate::json::text_field(fields, "name"@), opt_mcp_call_status(fields, "status"@)),
        (
            crate::wire::opt_text(fields, "approval_request_id"@),
            crate::wire::opt_text(fields, "output"@),
        ),
    ) {
        ((Some(name), Some(status)), (Some(approval_request_id), Some(output))) => Some(
            McpCallView {
                id: crate::wire::text_or(fields, "id"@, Seq::empty()),
                server_label: crate::wire::text_or(fields, "server_label"@, Seq::empty()),
                name,
                arguments: crate::wire::text_or(fields, "arguments"@, Seq::empty()),
                status,
                approval_request_id,
                output,
                error: mcp_error_of(crate::json::object_field(fields, "error"@)),
            },
        ),
        _ => None,
    }
}

/// An MCP call read from its fields.
pub fn read_mcp_call(fields: &JsonObject) -> (out: Option<McpCall>)
    ensures
        crate::data::opt_view(out) == mcp_call_of(fields@),
{
    match (
        (fields.get_str("name"), read_opt_mcp_call_status(fields, "status")),
        (read_opt_text(fields, "approval_request_id"), read_opt_text(fields, "output")),
    ) {
        ((Some(name), Some(status)), (Some(approval_request_id), Some(output))) => Some(
            McpCall {
                id: read_text_or_empty(fields, "id"),
                server_label: read_text_or_empty(fields, "server_label"),
                name: name.to_owned(),
                arguments: read_text_or_empty(fields, "arguments"),
                status,
                approval_request_id,
                output,
                error: read_mcp_error(fields.get("error")),
            },
        ),
        _ => None,
    }
}

/// A list of an MCP server's tools read from its fields.
pub open spec fn mcp_list_of(fields: Map<Seq<char>, JsonView>) -> Option<McpListToolsView> {
    match (
        crate::wire::list_or_empty::<McpTool>(fields, "tools"@),
        crate::wire::opt_text(fields, "error"@),
    ) {
        (Some(tools), Some(error)) => Some(
            McpListToolsView {
                id: crate::wire::text_or(fields, "id"@, Seq::empty()),
                server_label: crate::wire::text_or(fields, "server_label"@, Seq::empty()),
                tools,
                error,
            },
        ),
        _ => None,
    }
}

/// A list of an MCP server's tools read from its fields.
pub fn read_mcp_list(fields: &JsonObject) -> (out: Option<McpListTools>)
    ensures
        crate::data::opt_view(out) == mcp_list_of(fields@),
{
    match (read_list_or_empty::<McpTool>(fields, "tools"), read_opt_text(fields, "error")) {
        (Some(tools), Some(error)) => Some(
            McpListTools {
                id: read_text_or_empty(fields, "id"),
                server_label: read_text_or_empty(fields, "server_label"),
                tools,
                error,
            },
        ),
        _ => None,
    }
}

/// A tool-search call read from its fields: its arguments are an object.
pub open spec fn search_call_of(fields: Map<Seq<char>, JsonView>) -> Option<ToolSearchCallView> {
    match (
        (crate::json::text_field(fields, "id"@), crate::json::text_field(fields, "call_id"@)),
        (
            crate::wire::opt_text(fields, "execution"@),
            crate::json::object_field(fields, "arguments"@),
            opt_tool_search_status(fields, "status"@),
        ),
    ) {
        (
            (Some(id), Some(call_id)),
            (Some(execution), Some(JsonView::Object(arguments)), Some(status)),
        ) => match crate::wire_tools::execution_of(execution) {
            Some(execution) => Some(
                ToolSearchCallView {
                    id,
                    call_id,
                    execution: match execution {
                        Some(e) => e,
                        None => ToolSearchExecution::Client,
                    },
                    arguments,
                    status: match status {
                        Some(s) => s,
                        None => ToolSearchStatus::Completed,
                    },
                },
            ),
            None => None,
        },
        _ => None,
    }
}

/// A tool-search call read from its fields.
pub fn read_search_call(fields: &JsonObject) -> (out: Option<ToolSearchCall>)
    ensures
        crate::data::opt_view(out) == search_call_of(fields@),
{
    match (
        (fields.get_str("id"), fields.get_str("call_id")),
        (
            read_opt_text(fields, "execution"),
            fields.get("arguments"),
            read_opt_tool_search_status(fields, "status"),
        ),
    ) {
        (
            (Some(id), Some(call_id)),
            (Some(execution), Some(Json::Object(arguments)), Some(status)),
        ) => match read_execution(&execution) {
            Some(execution) => Some(
                ToolSearchCall {
                    id: id.to_owned(),
                    call_id: call_id.to_owned(),
                    execution: match execution {
                        Some(e) => e,
                        None => ToolSearchExecution::Client,
                    },
                    arguments: arguments.copy(),
                    status: match status {
                        Some(s) => s,
                        None => ToolSearchStatus::Completed,
                    },
                },
            ),
            None => None,
        },
        _ => None,
    }
}

/// A compaction read from its fields.
pub open spec fn compaction_of(fields: Map<Seq<char>, JsonView>) -> Option<CompactionItemView> {
    match (
        crate::wire::opt_text(fields, "id"@),
        crate::json::text_field(fields, "encrypted_content"@),
    ) {
        (Some(id), Some(encrypted_content)) => Some(CompactionItemView { id, encrypted_content }),
        _ => None,
    }
}

/// A compaction read from its fields.
pub fn read_compaction(fields: &JsonObject) -> (out: Option<CompactionItem>)
    ensures
        crate::data::opt_view(out) == compaction_of(fields@),
{
    match (read_opt_text(fields, "id"), fields.get_str("encrypted_content")) {
        (Some(id), Some(encrypted_content)) => Some(
            CompactionItem { id, encrypted_content: encrypted_content.to_owned() },
        ),
        _ => None,
    }
}

/// An output item whose kind is named by `type_`, read from its fields.
pub open spec fn output_item_of_fields(
    type_: Seq<char>,
    fields: Map<Seq<char>, JsonView>,
) -> Option<
    OutputItemView,
> {
    if type_ == "message"@ {
        match output_message_of(fields) {
            Some(x) => Some(OutputItemView::Message(x)),
            None => None,
        }
    } else if type_ == "reasoning"@ {
        match reasoning_of(fields) {
            Some(x) => Some(OutputItemView::Reasoning(x)),
            None => None,
        }
    } else if type_ == "function_call"@ {
        match function_call_of(fields) {
            Some(x) => Some(OutputItemView::FunctionCall(x)),
            None => None,
        }
    } else if type_ == "custom_tool_call"@ {
        match custom_call_of(fields) {
            Some(x) => Some(OutputItemView::CustomToolCall(x)),
            None => None,
        }
    } else if type_ == "web_search_call"@ {
        match web_search_of(fields) {
            Some(x) => Some(OutputItemView::WebSearchCall(x)),
            None => None,
        }
    } else if type_ == "mcp_call"@ {
        match mcp_call_of(fields) {
            Some(x) => Some(OutputItemView::McpCall(x)),
            None => None,
        }
    } else if type_ == "mcp_list_tools"@ {
        match mcp_list_of(fields) {
            Some(x) => Some(OutputItemView::McpListTools(x)),
            None => None,
        }
    } else if type_ == "tool_search_call"@ {
        match search_call_of(fields) {
            Some(x) => Some(OutputItemView::ToolSearchCall(x)),
            None => None,
        }
    } else if type_ == "compaction"@ {
        match compaction_of(fields) {
            Some(x) => Some(OutputItemView::Compaction(x)),
            None => None,
        }
    } else {
        None
    }
}

fn read_output_item(type_: &str, fields: &JsonObject) -> (out: Option<OutputItem>)
    ensures
        crate::data::opt_view(out) == output_item_of_fields(type_@, fields@),
{
    if same_text(type_, "message") {
        return match read_output_message(fields) {
            Some(x) => Some(OutputItem::Message(x)),
            None => None,
        };
    }
    if same_text(type_, "reasoning") {
        return match read_reasoning(fields) {
            Some(x) => Some(OutputItem::Reasoning(x)),
            None => None,
        };
    }
    if same_text(type_, "function_call") {
        return match read_function_call(fields) {
            Some(x) => Some(OutputItem::FunctionCall(x)),
            None => None,
        };
    }
    if same_text(type_, "custom_tool_call") {
        return match read_custom_call(fields) {
            Some(x) => Some(OutputItem::CustomToolCall(x)),
            None => None,
        };
    }
    if same_text(type_, "web_search_call") {
        return match read_web_search(fields) {
            Some(x) => Some(OutputItem::WebSearchCall(x)),
            None => None,
        };
    }
    if same_text(type_, "mcp_call") {
        return match read_mcp_call(fields) {
            Some(x) => Some(OutputItem::McpCall(x)),
            None => None,
        };
    }
    if same_text(type_, "mcp_list_tools") {
        return match read_mcp_list(fields) {
            Some(x) => Some(OutputItem::McpListTools(x)),
            None => None,
        };
    }
    if same_text(type_, "tool_search_call") {
        return match read_search_call(fields) {
            Some(x) => Some(OutputItem::ToolSearchCall(x)),
            None => None,
        };
    }
    if same_text(type_, "compaction") {
        return match read_compaction(fields) {
            Some(x) => Some(OutputItem::Compaction(x)),
            None => None,
        };
    }
    None
}

impl FromJson for OutputItem {
    open spec fn of_json(value: JsonView) -> Option<OutputItemView> {
        match value {
            JsonView::Object(fields) => match crate::json::text_field(fields, "type"@) {
                Some(t) => output_item_of_fields(t, fields),
                None => None,
            },
            _ => None,
        }
    }

    fn from_json(value: &Json) -> (out: Option<OutputItem>) {
        match value {
            Json::Object(fields) => match fields.get_str("type") {
                Some(t) => read_output_item(t, fields),
                None => None,
            },
            _ => None,
        }
    }
}

/// A text, or null where there is none.
pub open spec fn text_or_null(text: Option<Seq<char>>) -> JsonView {
    match text {
        Some(t) => JsonView::Text(t),
        None => JsonView::Null,
    }
}

/// A text, or null where there is none.
pub fn text_or_null_json(text: &Option<String>) -> (out: Json)
    ensures
        out@ == text_or_null(crate::data::opt_view(*text)),
{
    match text {
        Some(t) => Json::Text(t.clone()),
        None => Json::Null,
    }
}

/// The text that names who runs a search.
pub open spec fn execution_name(execution: Option<ToolSearchExecution>) -> Option<Seq<char>> {
    match execution {
        Some(e) => Some(execution_text(e)),
        None => None,
    }
}

/// The text that names how far a search is.
pub open spec fn status_name(status: Option<ToolSearchStatus>) -> Option<Seq<char>> {
    match status {
        Some(s) => Some(tool_search_status_text(s)),
        None => None,
    }
}

/// The fields with one status more, where there is a status.
pub open spec fn with_message_status(
    fields: Map<Seq<char>, JsonView>,
    key: Seq<char>,
    status: Option<MessageStatus>,
) -> Map<Seq<char>, JsonView> {
    match status {
        Some(s) => fields.insert(key, JsonView::Text(message_status_text(s))),
        None => fields,
    }
}

/// Gives a field a status, where there is a status.
pub fn set_message_status(fields: &mut JsonObject, key: &str, status: Option<MessageStatus>)
    ensures
        final(fields)@ == with_message_status(old(fields)@, key@, status),
{
    if let Some(s) = status {
        fields.set_str(key, s.as_str());
    }
}

/// The fields with one status more, where there is a status.
pub open spec fn with_mcp_call_status(
    fields: Map<Seq<char>, JsonView>,
    key: Seq<char>,
    status: Option<McpCallStatus>,
) -> Map<Seq<char>, JsonView> {
    match status {
        Some(s) => fields.insert(key, JsonView::Text(mcp_call_status_text(s))),
        None => fields,
    }
}

/// Gives a field a status, where there is a status.
pub fn set_mcp_call_status(fields: &mut JsonObject, key: &str, status: Option<McpCallStatus>)
    ensures
        final(fields)@ == with_mcp_call_status(old(fields)@, key@, status),
{
    if let Some(s) = status {
        fields.set_str(key, s.as_str());
    }
}

/// The fields of a message that the model wrote.
pub open spec fn output_message_fields(x: OutputMessageView) -> Map<Seq<char>, JsonView> {
    Map::<Seq<char>, JsonView>::empty()
        .insert("type"@, JsonView::Text("message"@))
        .insert("id"@, JsonView::Text(x.id))
        .insert("role"@, JsonView::Text(x.role))
        .insert("status"@, JsonView::Text(message_status_text(x.status)))
        .insert("content"@, JsonView::Array(crate::wire::list_json::<OutputTextContent>(x.content)))
}

/// The fields of a message that the model wrote.
pub fn output_message_to_fields(x: &OutputMessage) -> (fields: JsonObject)
    ensures
        fields@ == output_message_fields(x@),
{
    let mut fields = JsonObject::new();
    fields.set_str("type", "message");
    fields.set_str("id", x.id.as_str());
    fields.set_str("role", x.role.as_str());
    fields.set_str("status", x.status.as_str());
    fields.set("content", write_list::<OutputTextContent>(&x.content));
    fields
}

/// The fields of reasoning.
pub open spec fn reasoning_fields(x: ReasoningOutputView) -> Map<Seq<char>, JsonView> {
    with_message_status(
        Map::<Seq<char>, JsonView>::empty()
            .insert("type"@, JsonView::Text("reasoning"@))
            .insert("id"@, JsonView::Text(x.id))
            .insert("summary"@, JsonView::Array(x.summary))
            .insert(
                "content"@,
                JsonView::Array(crate::wire::list_json::<ReasoningTextContent>(x.content)),
            )
            .insert("encrypted_content"@, text_or_null(x.encrypted_content)),
        "status"@,
        x.status,
    )
}

/// The fields of reasoning.
pub fn reasoning_to_fields(x: &ReasoningOutput) -> (fields: JsonObject)
    ensures
        fields@ == reasoning_fields(x@),
{
    let mut fields = JsonObject::new();
    fields.set_str("type", "reasoning");
    fields.set_str("id", x.id.as_str());
    fields.set("summary", values_json(&x.summary));
    fields.set("content", write_list::<ReasoningTextContent>(&x.content));
    fields.set("encrypted_content", text_or_null_json(&x.encrypted_content));
    set_message_status(&mut fields, "status", x.status);
    fields
}

/// The fields of a function call.
pub open spec fn function_call_fields(x: FunctionToolCallView) -> Map<Seq<char>, JsonView> {
    crate::wire::with_text(
        Map::<Seq<char>, JsonView>::empty()
            .insert("type"@, JsonView::Text("function_call"@))
            .insert("id"@, JsonView::Text(x.id))
            .insert("call_id"@, JsonView::Text(x.call_id))
            .insert("name"@, JsonView::Text(x.name)),
        "namespace"@,
        x.namespace,
    )
        .insert("arguments"@, JsonView::Text(x.arguments))
        .insert("status"@, JsonView::Text(message_status_text(x.status)))
}

/// The fields of a function call.
pub fn function_call_to_fields(x: &FunctionToolCall) -> (fields: JsonObject)
    ensures
        fields@ == function_call_fields(x@),
{
    let mut fields = JsonObject::new();
    fields.set_str("type", "function_call");
    fields.set_str("id", x.id.as_str());
    fields.set_str("call_id", x.call_id.as_str());
    fields.set_str("name", x.name.as_str());
    set_text(&mut fields, "namespace", &x.namespace);
    fields.set_str("arguments", x.arguments.as_str());
    fields.set_str("status", x.status.as_str());
    fields
}

/// The fields of a custom call.
pub open spec fn custom_call_fields(x: CustomToolCallView) -> Map<Seq<char>, JsonView> {
    with_message_status(
        Map::<Seq<char>, JsonView>::empty()
            .insert("type"@, JsonView::Text("custom_tool_call"@))
            .insert("id"@, JsonView::Text(x.id)),
        "status"@,
        x.status,
    )
        .insert("call_id"@, JsonView::Text(x.call_id))
        .insert("name"@, JsonView::Text(x.name))
        .insert("input"@, JsonView::Text(x.input))
}

/// The fields of a custom call.
pub fn custom_call_to_fields(x: &CustomToolCall) -> (fields: JsonObject)
    ensures
        fields@ == custom_call_fields(x@),
{
    let mut fields = JsonObject::new();
    fields.set_str("type", "custom_tool_call");
    fields.set_str("id", x.id.as_str());
    set_message_status(&mut fields, "status", x.status);
    fields.set_str("call_id", x.call_id.as_str());
    fields.set_str("name", x.name.as_str());
    fields.set_str("input", x.input.as_str());
    fields
}

/// The fields of a web search.
pub open spec fn web_search_fields(x: WebSearchCallView) -> Map<Seq<char>, JsonView> {
    Map::<Seq<char>, JsonView>::empty()
        .insert("type"@, JsonView::Text("web_search_call"@))
        .insert("id"@, JsonView::Text(x.id))
        .insert("status"@, JsonView::Text(web_search_call_status_text(x.status)))
        .insert("action"@, JsonView::Object(x.action.fields))
}

/// The fields of a web search.
pub fn web_search_to_fields(x: &WebSearchCall) -> (fields: JsonObject)
    ensures
        fields@ == web_search_fields(x@),
{
    let mut fields = JsonObject::new();
    fields.set_str("type", "web_search_call");
    fields.set_str("id", x.id.as_str());
    fields.set_str("status", x.status.as_str());
    fields.set("action", Json::Object(x.action.fields.copy()));
    fields
}

/// The JSON value of an MCP call's error; null where there is none.
pub open spec fn mcp_error_json(error: Option<McpCallErrorView>) -> JsonView {
    match error {
        None => JsonView::Null,
        Some(McpCallErrorView::Message(t)) => JsonView::Text(t),
        Some(McpCallErrorView::Unknown(v)) => v,
    }
}

fn mcp_error_to_json(error: &Option<McpCallError>) -> (out: Json)
    ensures
        out@ == mcp_error_json(crate::data::opt_view(*error)),
{
    match error {
        None => Json::Null,
        Some(McpCallError::Message(t)) => Json::Text(t.clone()),
        Some(McpCallError::Unknown(v)) => v.copy(),
    }
}

/// The fields of an MCP call.
pub open spec fn mcp_call_fields(x: McpCallView) -> Map<Seq<char>, JsonView> {
    with_mcp_call_status(
        Map::<Seq<char>, JsonView>::empty()
            .insert("type"@, JsonView::Text("mcp_call"@))
            .insert("id"@, JsonView::Text(x.id))
            .insert("server_label"@, JsonView::Text(x.server_label))
            .insert("name"@, JsonView::Text(x.name))
            .insert("arguments"@, JsonView::Text(x.arguments)),
        "status"@,
        x.status,
    )
        .insert("approval_request_id"@, text_or_null(x.approval_request_id))
        .insert("output"@, text_or_null(x.output))
        .insert("error"@, mcp_error_json(x.error))
}

/// The fields of an MCP call.
pub fn mcp_call_to_fields(x: &McpCall) -> (fields: JsonObject)
    ensures
        fields@ == mcp_call_fields(x@),
{
    let mut fields = JsonObject::new();
    fields.set_str("type", "mcp_call");
    fields.set_str("id", x.id.as_str());
    fields.set_str("server_label", x.server_label.as_str());
    fields.set_str("name", x.name.as_str());
    fields.set_str("arguments", x.arguments.as_str());
    set_mcp_call_status(&mut fields, "status", x.status);
    fields.set("approval_request_id", text_or_null_json(&x.approval_request_id));
    fields.set("output", text_or_null_json(&x.output));
    fields.set("error", mcp_error_to_json(&x.error));
    fields
}

/// The fields of a list of an MCP server's tools.
pub open spec fn mcp_list_fields(x: McpListToolsView) -> Map<Seq<char>, JsonView> {
    crate::wire::with_text(
        Map::<Seq<char>, JsonView>::empty()
            .insert("type"@, JsonView::Text("mcp_list_tools"@))
            .insert("id"@, JsonView::Text(x.id))
            .insert("server_label"@, JsonView::Text(x.server_label))
            .insert("tools"@, JsonView::Array(crate::wire::list_json::<McpTool>(x.tools))),
        "error"@,
        x.error,
    )
}

/// The fields of a list of an MCP server's tools.
pub fn mcp_list_to_fields(x: &McpListTools) -> (fields: JsonObject)
    ensures
        fields@ == mcp_list_fields(x@),
{
    let mut fields = JsonObject::new();
    fields.set_str("type", "mcp_list_tools");
    fields.set_str("id", x.id.as_str());
    fields.set_str("server_label", x.server_label.as_str());
    fields.set("tools", write_list::<McpTool>(&x.tools));
    set_text(&mut fields, "error", &x.error);
    fields
}

/// The fields of an MCP call that the gateway ran.
pub open spec fn mcp_tool_call_fields(x: McpToolCallView) -> Map<Seq<char>, JsonView> {
    crate::wire::with_text(
        crate::wire::with_json(
            Map::<Seq<char>, JsonView>::empty()
                .insert("type"@, JsonView::Text("mcp_tool_call"@))
                .insert("id"@, JsonView::Text(x.id))
                .insert("server"@, JsonView::Text(x.server))
                .insert("tool"@, JsonView::Text(x.tool))
                .insert("arguments"@, x.arguments)
                .insert("status"@, JsonView::Text(gateway_call_status_text(x.status))),
            "result"@,
            x.result,
        ),
        "error"@,
        x.error,
    )
}

/// The fields of an MCP call that the gateway ran.
pub fn mcp_tool_call_to_fields(x: &McpToolCall) -> (fields: JsonObject)
    ensures
        fields@ == mcp_tool_call_fields(x@),
{
    let mut fields = JsonObject::new();
    fields.set_str("type", "mcp_tool_call");
    fields.set_str("id", x.id.as_str());
    fields.set_str("server", x.server.as_str());
    fields.set_str("tool", x.tool.as_str());
    fields.set("arguments", x.arguments.copy());
    fields.set_str("status", x.status.as_str());
    set_json(&mut fields, "result", &x.result);
    set_text(&mut fields, "error", &x.error);
    fields
}

/// The fields of a tool-search call.
pub open spec fn search_call_fields(x: ToolSearchCallView) -> Map<Seq<char>, JsonView> {
    Map::<Seq<char>, JsonView>::empty()
        .insert("type"@, JsonView::Text("tool_search_call"@))
        .insert("id"@, JsonView::Text(x.id))
        .insert("call_id"@, JsonView::Text(x.call_id))
        .insert("execution"@, JsonView::Text(execution_text(x.execution)))
        .insert("arguments"@, JsonView::Object(x.arguments))
        .insert("status"@, JsonView::Text(tool_search_status_text(x.status)))
}

/// The fields of a tool-search call.
pub fn search_call_to_fields(x: &ToolSearchCall) -> (fields: JsonObject)
    ensures
        fields@ == search_call_fields(x@),
{
    let mut fields = JsonObject::new();
    fields.set_str("type", "tool_search_call");
    fields.set_str("id", x.id.as_str());
    fields.set_str("call_id", x.call_id.as_str());
    fields.set_str("execution", x.execution.as_str());
    fields.set("arguments", Json::Object(x.arguments.copy()));
    fields.set_str("status", x.status.as_str());
    fields
}

/// The fields of a compaction.
pub open spec fn compaction_fields(x: CompactionItemView) -> Map<Seq<char>, JsonView> {
    crate::wire::with_text(
        Map::<Seq<char>, JsonView>::empty().insert("type"@, JsonView::Text("compaction"@)),
        "id"@,
        x.id,
    ).insert("encrypted_content"@, JsonView::Text(x.encrypted_content))
}

/// The fields of a compaction.
pub fn compaction_to_fields(x: &CompactionItem) -> (fields: JsonObject)
    ensures
        fields@ == compaction_fields(x@),
{
    let mut fields = JsonObject::new();
    fields.set_str("type", "compaction");
    set_text(&mut fields, "id", &x.id);
    fields.set_str("encrypted_content", x.encrypted_content.as_str());
    fields
}

/// The fields of an output item.
pub open spec fn output_item_fields(item: OutputItemView) -> Map<Seq<char>, JsonView> {
    match item {
        OutputItemView::Message(x) => output_message_fields(x),
        OutputItemView::Reasoning(x) => reasoning_fields(x),
        OutputItemView::FunctionCall(x) => function_call_fields(x),
        OutputItemView::CustomToolCall(x) => custom_call_fields(x),
        OutputItemView::WebSearchCall(x) => web_search_fields(x),
        OutputItemView::McpCall(x) => mcp_call_fields(x),
        OutputItemView::McpListTools(x) => mcp_list_fields(x),
        OutputItemView::McpToolCall(x) => mcp_tool_call_fields(x),
        OutputItemView::ToolSearchCall(x) => search_call_fields(x),
        OutputItemView::Compaction(x) => compaction_fields(x),
    }
}

impl ToJson for OutputItem {
    open spec fn json_of(item: OutputItemView) -> JsonView {
        JsonView::Object(output_item_fields(item))
    }

    fn to_json(&self) -> (out: Json) {
        Json::Object(
            match self {
                OutputItem::Message(x) => output_message_to_fields(x),
                OutputItem::Reasoning(x) => reasoning_to_fields(x),
                OutputItem::FunctionCall(x) => function_call_to_fields(x),
                OutputItem::CustomToolCall(x) => custom_call_to_fields(x),
                OutputItem::WebSearchCall(x) => web_search_to_fields(x),
                OutputItem::McpCall(x) => mcp_call_to_fields(x),
                OutputItem::McpListTools(x) => mcp_list_to_fields(x),
                OutputItem::McpToolCall(x) => mcp_tool_call_to_fields(x),
                OutputItem::ToolSearchCall(x) => search_call_to_fields(x),
                OutputItem::Compaction(x) => compaction_to_fields(x),
            },
        )
    }
}

} // verus!
