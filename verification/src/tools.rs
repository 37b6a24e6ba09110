//! Tool declarations, public and as sent upstream.
use vstd::prelude::*;

#[allow(unused_imports)]
use crate::data::{copy_opt, copy_opt_vec, copy_vec, same_opt, same_opt_vec, same_vec, Data};
#[allow(unused_imports)]
use crate::json::{Json, JsonObject, JsonView};

verus! {

/// Who runs a tool search.
#[derive(Debug, Clone, Copy, PartialEq, Eq, Structural)]
pub enum ToolSearchExecution {
    Client,
    Server,
}

/// How far a tool search has come.
#[derive(Debug, Clone, Copy, PartialEq, Eq, Structural)]
pub enum ToolSearchStatus {
    InProgress,
    Completed,
    Incomplete,
}

/// A `function` tool declaration.
#[derive(Debug, Clone, PartialEq)]
pub struct FunctionToolParam {
    pub name: String,
    pub description: Option<String>,
    pub parameters: Option<Json>,
    pub strict: Option<bool>,
    /// Whether the schema is withheld from the model until a search loads it.
    pub defer_loading: Option<bool>,
    pub extra: JsonObject,
}

/// The view of a [`FunctionToolParam`].
#[verifier::ext_equal]
pub struct FunctionToolParamView {
    pub name: Seq<char>,
    pub description: Option<Seq<char>>,
    pub parameters: Option<JsonView>,
    pub strict: Option<bool>,
    pub defer_loading: Option<bool>,
    pub extra: Map<Seq<char>, JsonView>,
}

impl View for FunctionToolParam {
    type V = FunctionToolParamView;

    open spec fn view(&self) -> FunctionToolParamView {
        FunctionToolParamView {
            name: self.name@,
            description: crate::data::opt_view(self.description),
            parameters: crate::data::opt_view(self.parameters),
            strict: self.strict,
            defer_loading: self.defer_loading,
            extra: self.extra@,
        }
    }
}

impl Data for FunctionToolParam {
    fn copied(&self) -> (out: FunctionToolParam) {
        FunctionToolParam {
            name: self.name.copied(),
            description: copy_opt(&self.description),
            parameters: copy_opt(&self.parameters),
            strict: self.strict,
            defer_loading: self.defer_loading,
            extra: self.extra.copied(),
        }
    }

    fn same(&self, other: &FunctionToolParam) -> (yes: bool) {
        self.name.same(&other.name)
            && same_opt(&self.description, &other.description)
            && same_opt(&self.parameters, &other.parameters)
            && self.strict == other.strict
            && self.defer_loading == other.defer_loading
            && self.extra.same(&other.extra)
    }
}

/// A member of a `namespace` declaration.
#[derive(Debug, Clone, PartialEq)]
pub enum CodexNamespaceMember {
    Function(FunctionToolParam),
    Unknown,
}

/// The view of a [`CodexNamespaceMember`].
#[verifier::ext_equal]
pub enum CodexNamespaceMemberView {
    Function(FunctionToolParamView),
    Unknown,
}

impl View for CodexNamespaceMember {
    type V = CodexNamespaceMemberView;

    open spec fn view(&self) -> CodexNamespaceMemberView {
        match *self {
            CodexNamespaceMember::Function(x) => CodexNamespaceMemberView::Function(x@),
            CodexNamespaceMember::Unknown => CodexNamespaceMemberView::Unknown,
        }
    }
}

impl Data for CodexNamespaceMember {
    fn copied(&self) -> (out: CodexNamespaceMember) {
        match self {
            CodexNamespaceMember::Function(x) => CodexNamespaceMember::Function(x.copied()),
            CodexNamespaceMember::Unknown => CodexNamespaceMember::Unknown,
        }
    }

    fn same(&self, other: &CodexNamespaceMember) -> (yes: bool) {
        match (self, other) {
            (CodexNamespaceMember::Function(a), CodexNamespaceMember::Function(b)) => a.same(b),
            (CodexNamespaceMember::Unknown, CodexNamespaceMember::Unknown) => true,
            _ => false,
        }
    }
}

/// A `namespace` declaration: functions under one public name.
#[derive(Debug, Clone, PartialEq)]
pub struct CodexNamespaceToolParam {
    pub name: String,
    pub description: Option<String>,
    pub tools: Vec<CodexNamespaceMember>,
    pub extra: JsonObject,
}

/// The view of a [`CodexNamespaceToolParam`].
#[verifier::ext_equal]
pub struct CodexNamespaceToolParamView {
    pub name: Seq<char>,
    pub description: Option<Seq<char>>,
    pub tools: Seq<CodexNamespaceMemberView>,
    pub extra: Map<Seq<char>, JsonView>,
}

impl View for CodexNamespaceToolParam {
    type V = CodexNamespaceToolParamView;

    open spec fn view(&self) -> CodexNamespaceToolParamView {
        CodexNamespaceToolParamView {
            name: self.name@,
            description: crate::data::opt_view(self.description),
            tools: crate::data::views(self.tools@),
            extra: self.extra@,
        }
    }
}

impl Data for CodexNamespaceToolParam {
    fn copied(&self) -> (out: CodexNamespaceToolParam) {
        CodexNamespaceToolParam {
            name: self.name.copied(),
            description: copy_opt(&self.description),
            tools: copy_vec(&self.tools),
            extra: self.extra.copied(),
        }
    }

    fn same(&self, other: &CodexNamespaceToolParam) -> (yes: bool) {
        self.name.same(&other.name)
            && same_opt(&self.description, &other.description)
            && same_vec(&self.tools, &other.tools)
            && self.extra.same(&other.extra)
    }
}

/// A tool as an MCP server lists it.
#[derive(Debug, Clone, PartialEq)]
pub struct McpTool {
    pub name: String,
    pub description: Option<String>,
    pub input_schema: JsonObject,
    pub annotations: Option<Json>,
}

/// The view of a [`McpTool`].
#[verifier::ext_equal]
pub struct McpToolView {
    pub name: Seq<char>,
    pub description: Option<Seq<char>>,
    pub input_schema: Map<Seq<char>, JsonView>,
    pub annotations: Option<JsonView>,
}

impl View for McpTool {
    type V = McpToolView;

    open spec fn view(&self) -> McpToolView {
        McpToolView {
            name: self.name@,
            description: crate::data::opt_view(self.description),
            input_schema: self.input_schema@,
            annotations: crate::data::opt_view(self.annotations),
        }
    }
}

impl Data for McpTool {
    fn copied(&self) -> (out: McpTool) {
        McpTool {
            name: self.name.copied(),
            description: copy_opt(&self.description),
            input_schema: self.input_schema.copied(),
            annotations: copy_opt(&self.annotations),
        }
    }

    fn same(&self, other: &McpTool) -> (yes: bool) {
        self.name.same(&other.name)
            && same_opt(&self.description, &other.description)
            && self.input_schema.same(&other.input_schema)
            && same_opt(&self.annotations, &other.annotations)
    }
}

/// A tool that an MCP server listed, with the name that the model calls it by.
#[derive(Debug, Clone, PartialEq)]
pub struct McpDiscoveredToolParam {
    pub server_label: String,
    pub tool_name: String,
    pub internal_name: String,
    pub tool: McpTool,
}

/// The view of a [`McpDiscoveredToolParam`].
#[verifier::ext_equal]
pub struct McpDiscoveredToolParamView {
    pub server_label: Seq<char>,
    pub tool_name: Seq<char>,
    pub internal_name: Seq<char>,
    pub tool: McpToolView,
}

impl View for McpDiscoveredToolParam {
    type V = McpDiscoveredToolParamView;

    open spec fn view(&self) -> McpDiscoveredToolParamView {
        McpDiscoveredToolParamView {
            server_label: self.server_label@,
            tool_name: self.tool_name@,
            internal_name: self.internal_name@,
            tool: self.tool@,
        }
    }
}

impl Data for McpDiscoveredToolParam {
    fn copied(&self) -> (out: McpDiscoveredToolParam) {
        McpDiscoveredToolParam {
            server_label: self.server_label.copied(),
            tool_name: self.tool_name.copied(),
            internal_name: self.internal_name.copied(),
            tool: self.tool.copied(),
        }
    }

    fn same(&self, other: &McpDiscoveredToolParam) -> (yes: bool) {
        self.server_label.same(&other.server_label)
            && self.tool_name.same(&other.tool_name)
            && self.internal_name.same(&other.internal_name)
            && self.tool.same(&other.tool)
    }
}

/// An `mcp` declaration: a server whose tools the gateway runs.
#[derive(Debug, Clone, PartialEq)]
pub struct McpToolParam {
    pub server_label: String,
    pub server_description: Option<String>,
    pub server_url: Option<String>,
    pub connector_id: Option<String>,
    pub authorization: Option<String>,
    pub headers: JsonObject,
    pub require_approval: Option<String>,
    pub allowed_tools: Option<Vec<String>>,
    pub defer_loading: Option<bool>,
    /// Filled in once the server has listed its tools.
    pub discovered_tools: Vec<McpDiscoveredToolParam>,
}

/// The view of a [`McpToolParam`].
#[verifier::ext_equal]
pub struct McpToolParamView {
    pub server_label: Seq<char>,
    pub server_description: Option<Seq<char>>,
    pub server_url: Option<Seq<char>>,
    pub connector_id: Option<Seq<char>>,
    pub authorization: Option<Seq<char>>,
    pub headers: Map<Seq<char>, JsonView>,
    pub require_approval: Option<Seq<char>>,
    pub allowed_tools: Option<Seq<Seq<char>>>,
    pub defer_loading: Option<bool>,
    pub discovered_tools: Seq<McpDiscoveredToolParamView>,
}

impl View for McpToolParam {
    type V = McpToolParamView;

    open spec fn view(&self) -> McpToolParamView {
        McpToolParamView {
            server_label: self.server_label@,
            server_description: crate::data::opt_view(self.server_description),
            server_url: crate::data::opt_view(self.server_url),
            connector_id: crate::data::opt_view(self.connector_id),
            authorization: crate::data::opt_view(self.authorization),
            headers: self.headers@,
            require_approval: crate::data::opt_view(self.require_approval),
            allowed_tools: crate::data::opt_views(self.allowed_tools),
            defer_loading: self.defer_loading,
            discovered_tools: crate::data::views(self.discovered_tools@),
        }
    }
}

impl Data for McpToolParam {
    fn copied(&self) -> (out: McpToolParam) {
        McpToolParam {
            server_label: self.server_label.copied(),
            server_description: copy_opt(&self.server_description),
            server_url: copy_opt(&self.server_url),
            connector_id: copy_opt(&self.connector_id),
            authorization: copy_opt(&self.authorization),
            headers: self.headers.copied(),
            require_approval: copy_opt(&self.require_approval),
            allowed_tools: copy_opt_vec(&self.allowed_tools),
            defer_loading: self.defer_loading,
            discovered_tools: copy_vec(&self.discovered_tools),
        }
    }

    fn same(&self, other: &McpToolParam) -> (yes: bool) {
        self.server_label.same(&other.server_label)
            && same_opt(&self.server_description, &other.server_description)
            && same_opt(&self.server_url, &other.server_url)
            && same_opt(&self.connector_id, &other.connector_id)
            && same_opt(&self.authorization, &other.authorization)
            && self.headers.same(&other.headers)
            && same_opt(&self.require_approval, &other.require_approval)
            && same_opt_vec(&self.allowed_tools, &other.allowed_tools)
            && self.defer_loading == other.defer_loading
            && same_vec(&self.discovered_tools, &other.discovered_tools)
    }
}

/// A `custom` tool declaration: the client runs it on free text.
#[derive(Debug, Clone, PartialEq)]
pub struct CustomToolParam {
    pub name: String,
    pub description: Option<String>,
    pub format: Option<Json>,
    pub extra: JsonObject,
}

/// The view of a [`CustomToolParam`].
#[verifier::ext_equal]
pub struct CustomToolParamView {
    pub name: Seq<char>,
    pub description: Option<Seq<char>>,
    pub format: Option<JsonView>,
    pub extra: Map<Seq<char>, JsonView>,
}

impl View for CustomToolParam {
    type V = CustomToolParamView;

    open spec fn view(&self) -> CustomToolParamView {
        CustomToolParamView {
            name: self.name@,
            description: crate::data::opt_view(self.description),
            format: crate::data::opt_view(self.format),
            extra: self.extra@,
        }
    }
}

impl Data for CustomToolParam {
    fn copied(&self) -> (out: CustomToolParam) {
        CustomToolParam {
            name: self.name.copied(),
            description: copy_opt(&self.description),
            format: copy_opt(&self.format),
            extra: self.extra.copied(),
        }
    }

    fn same(&self, other: &CustomToolParam) -> (yes: bool) {
        self.name.same(&other.name)
            && same_opt(&self.description, &other.description)
            && same_opt(&self.format, &other.format)
            && self.extra.same(&other.extra)
    }
}

/// A `tool_search` declaration.
#[derive(Debug, Clone, PartialEq)]
pub struct ToolSearchToolParam {
    pub execution: Option<ToolSearchExecution>,
    pub description: String,
    pub parameters: JsonObject,
}

/// The view of a [`ToolSearchToolParam`].
#[verifier::ext_equal]
pub struct ToolSearchToolParamView {
    pub execution: Option<ToolSearchExecution>,
    pub description: Seq<char>,
    pub parameters: Map<Seq<char>, JsonView>,
}

impl View for ToolSearchToolParam {
    type V = ToolSearchToolParamView;

    open spec fn view(&self) -> ToolSearchToolParamView {
        ToolSearchToolParamView {
            execution: self.execution,
            description: self.description@,
            parameters: self.parameters@,
        }
    }
}

impl Data for ToolSearchToolParam {
    fn copied(&self) -> (out: ToolSearchToolParam) {
        ToolSearchToolParam {
            execution: self.execution,
            description: self.description.copied(),
            parameters: self.parameters.copied(),
        }
    }

    fn same(&self, other: &ToolSearchToolParam) -> (yes: bool) {
        self.execution == other.execution
            && self.description.same(&other.description)
            && self.parameters.same(&other.parameters)
    }
}

/// A web search declaration, by its fields.
#[derive(Debug, Clone, PartialEq)]
pub struct WebSearchToolParam {
    pub fields: JsonObject,
}

/// The view of a [`WebSearchToolParam`].
#[verifier::ext_equal]
pub struct WebSearchToolParamView {
    pub fields: Map<Seq<char>, JsonView>,
}

impl View for WebSearchToolParam {
    type V = WebSearchToolParamView;

    open spec fn view(&self) -> WebSearchToolParamView {
        WebSearchToolParamView {
            fields: self.fields@,
        }
    }
}

impl Data for WebSearchToolParam {
    fn copied(&self) -> (out: WebSearchToolParam) {
        WebSearchToolParam {
            fields: self.fields.copied(),
        }
    }

    fn same(&self, other: &WebSearchToolParam) -> (yes: bool) {
        self.fields.same(&other.fields)
    }
}

/// A file search declaration, by its fields.
#[derive(Debug, Clone, PartialEq)]
pub struct FileSearchToolParam {
    pub fields: JsonObject,
}

/// The view of a [`FileSearchToolParam`].
#[verifier::ext_equal]
pub struct FileSearchToolParamView {
    pub fields: Map<Seq<char>, JsonView>,
}

impl View for FileSearchToolParam {
    type V = FileSearchToolParamView;

    open spec fn view(&self) -> FileSearchToolParamView {
        FileSearchToolParamView {
            fields: self.fields@,
        }
    }
}

impl Data for FileSearchToolParam {
    fn copied(&self) -> (out: FileSearchToolParam) {
        FileSearchToolParam {
            fields: self.fields.copied(),
        }
    }

    fn same(&self, other: &FileSearchToolParam) -> (yes: bool) {
        self.fields.same(&other.fields)
    }
}

/// A code interpreter declaration, by its fields.
#[derive(Debug, Clone, PartialEq)]
pub struct CodeInterpreterToolParam {
    pub fields: JsonObject,
}

/// The view of a [`CodeInterpreterToolParam`].
#[verifier::ext_equal]
pub struct CodeInterpreterToolParamView {
    pub fields: Map<Seq<char>, JsonView>,
}

impl View for CodeInterpreterToolParam {
    type V = CodeInterpreterToolParamView;

    open spec fn view(&self) -> CodeInterpreterToolParamView {
        CodeInterpreterToolParamView {
            fields: self.fields@,
        }
    }
}

impl Data for CodeInterpreterToolParam {
    fn copied(&self) -> (out: CodeInterpreterToolParam) {
        CodeInterpreterToolParam {
            fields: self.fields.copied(),
        }
    }

    fn same(&self, other: &CodeInterpreterToolParam) -> (yes: bool) {
        self.fields.same(&other.fields)
    }
}

/// A tool declaration of a request.
#[derive(Debug, Clone, PartialEq)]
pub enum ResponsesTool {
    Function(FunctionToolParam),
    ToolSearch(ToolSearchToolParam),
    Mcp(McpToolParam),
    WebSearch(WebSearchToolParam),
    FileSearch(FileSearchToolParam),
    CodeInterpreter(CodeInterpreterToolParam),
    Namespace(CodexNamespaceToolParam),
    Custom(CustomToolParam),
    Unknown,
}

/// The view of a [`ResponsesTool`].
#[verifier::ext_equal]
pub enum ResponsesToolView {
    Function(FunctionToolParamView),
    ToolSearch(ToolSearchToolParamView),
    Mcp(McpToolParamView),
    WebSearch(WebSearchToolParamView),
    FileSearch(FileSearchToolParamView),
    CodeInterpreter(CodeInterpreterToolParamView),
    Namespace(CodexNamespaceToolParamView),
    Custom(CustomToolParamView),
    Unknown,
}

impl View for ResponsesTool {
    type V = ResponsesToolView;

    open spec fn view(&self) -> ResponsesToolView {
        match *self {
            ResponsesTool::Function(x) => ResponsesToolView::Function(x@),
            ResponsesTool::ToolSearch(x) => ResponsesToolView::ToolSearch(x@),
            ResponsesTool::Mcp(x) => ResponsesToolView::Mcp(x@),
            ResponsesTool::WebSearch(x) => ResponsesToolView::WebSearch(x@),
            ResponsesTool::FileSearch(x) => ResponsesToolView::FileSearch(x@),
            ResponsesTool::CodeInterpreter(x) => ResponsesToolView::CodeInterpreter(x@),
            ResponsesTool::Namespace(x) => ResponsesToolView::Namespace(x@),
            ResponsesTool::Custom(x) => ResponsesToolView::Custom(x@),
            ResponsesTool::Unknown => ResponsesToolView::Unknown,
        }
    }
}

impl Data for ResponsesTool {
    fn copied(&self) -> (out: ResponsesTool) {
        match self {
            ResponsesTool::Function(x) => ResponsesTool::Function(x.copied()),
            ResponsesTool::ToolSearch(x) => ResponsesTool::ToolSearch(x.copied()),
            ResponsesTool::Mcp(x) => ResponsesTool::Mcp(x.copied()),
            ResponsesTool::WebSearch(x) => ResponsesTool::WebSearch(x.copied()),
            ResponsesTool::FileSearch(x) => ResponsesTool::FileSearch(x.copied()),
            ResponsesTool::CodeInterpreter(x) => ResponsesTool::CodeInterpreter(x.copied()),
            ResponsesTool::Namespace(x) => ResponsesTool::Namespace(x.copied()),
            ResponsesTool::Custom(x) => ResponsesTool::Custom(x.copied()),
            ResponsesTool::Unknown => ResponsesTool::Unknown,
        }
    }

    fn same(&self, other: &ResponsesTool) -> (yes: bool) {
        match (self, other) {
            (ResponsesTool::Function(a), ResponsesTool::Function(b)) => a.same(b),
            (ResponsesTool::ToolSearch(a), ResponsesTool::ToolSearch(b)) => a.same(b),
            (ResponsesTool::Mcp(a), ResponsesTool::Mcp(b)) => a.same(b),
            (ResponsesTool::WebSearch(a), ResponsesTool::WebSearch(b)) => a.same(b),
            (ResponsesTool::FileSearch(a), ResponsesTool::FileSearch(b)) => a.same(b),
            (ResponsesTool::CodeInterpreter(a), ResponsesTool::CodeInterpreter(b)) => a.same(b),
            (ResponsesTool::Namespace(a), ResponsesTool::Namespace(b)) => a.same(b),
            (ResponsesTool::Custom(a), ResponsesTool::Custom(b)) => a.same(b),
            (ResponsesTool::Unknown, ResponsesTool::Unknown) => true,
            _ => false,
        }
    }
}

/// A function declaration as the upstream model server takes it.
#[derive(Debug, Clone, PartialEq)]
pub struct FunctionTool {
    pub type_: String,
    pub name: String,
    pub description: Option<String>,
    pub parameters: Option<Json>,
    pub strict: Option<bool>,
}

/// The view of a [`FunctionTool`].
#[verifier::ext_equal]
pub struct FunctionToolView {
    pub type_: Seq<char>,
    pub name: Seq<char>,
    pub description: Option<Seq<char>>,
    pub parameters: Option<JsonView>,
    pub strict: Option<bool>,
}

impl View for FunctionTool {
    type V = FunctionToolView;

    open spec fn view(&self) -> FunctionToolView {
        FunctionToolView {
            type_: self.type_@,
            name: self.name@,
            description: crate::data::opt_view(self.description),
            parameters: crate::data::opt_view(self.parameters),
            strict: self.strict,
        }
    }
}

impl Data for FunctionTool {
    fn copied(&self) -> (out: FunctionTool) {
        FunctionTool {
            type_: self.type_.copied(),
            name: self.name.copied(),
            description: copy_opt(&self.description),
            parameters: copy_opt(&self.parameters),
            strict: self.strict,
        }
    }

    fn same(&self, other: &FunctionTool) -> (yes: bool) {
        self.type_.same(&other.type_)
            && self.name.same(&other.name)
            && same_opt(&self.description, &other.description)
            && same_opt(&self.parameters, &other.parameters)
            && self.strict == other.strict
    }
}

/// How far the model may choose.
#[derive(Debug, Clone, Copy, PartialEq, Eq, Structural)]
pub enum ToolChoiceMode {
    Auto,
    Required,
}

/// A tool that a choice allows.
#[derive(Debug, Clone, PartialEq)]
pub struct AllowedTool {
    pub type_: String,
    pub name: String,
}

/// The view of a [`AllowedTool`].
#[verifier::ext_equal]
pub struct AllowedToolView {
    pub type_: Seq<char>,
    pub name: Seq<char>,
}

impl View for AllowedTool {
    type V = AllowedToolView;

    open spec fn view(&self) -> AllowedToolView {
        AllowedToolView {
            type_: self.type_@,
            name: self.name@,
        }
    }
}

impl Data for AllowedTool {
    fn copied(&self) -> (out: AllowedTool) {
        AllowedTool {
            type_: self.type_.copied(),
            name: self.name.copied(),
        }
    }

    fn same(&self, other: &AllowedTool) -> (yes: bool) {
        self.type_.same(&other.type_)
            && self.name.same(&other.name)
    }
}

/// Which tool the model is to call.
#[derive(Debug, Clone, PartialEq)]
pub enum ToolChoice {
    Auto,
    Never,
    Required,
    Function { namespace: Option<String>, name: String },
    Custom { name: String },
    AllowedTools { mode: ToolChoiceMode, tools: Vec<AllowedTool> },
    Other(Json),
}

/// The view of a [`ToolChoice`].
#[verifier::ext_equal]
pub enum ToolChoiceView {
    Auto,
    Never,
    Required,
    Function { namespace: Option<Seq<char>>, name: Seq<char> },
    Custom { name: Seq<char> },
    AllowedTools { mode: ToolChoiceMode, tools: Seq<AllowedToolView> },
    Other(JsonView),
}

impl View for ToolChoice {
    type V = ToolChoiceView;

    open spec fn view(&self) -> ToolChoiceView {
        match *self {
            ToolChoice::Auto => ToolChoiceView::Auto,
            ToolChoice::Never => ToolChoiceView::Never,
            ToolChoice::Required => ToolChoiceView::Required,
            ToolChoice::Function { namespace, name } => ToolChoiceView::Function {
                namespace: crate::data::opt_view(namespace),
                name: name@,
            },
            ToolChoice::Custom { name } => ToolChoiceView::Custom {
                name: name@,
            },
            ToolChoice::AllowedTools { mode, tools } => ToolChoiceView::AllowedTools {
                mode: mode,
                tools: crate::data::views(tools@),
            },
            ToolChoice::Other(x) => ToolChoiceView::Other(x@),
        }
    }
}

impl Data for ToolChoice {
    fn copied(&self) -> (out: ToolChoice) {
        match self {
            ToolChoice::Auto => ToolChoice::Auto,
            ToolChoice::Never => ToolChoice::Never,
            ToolChoice::Required => ToolChoice::Required,
            ToolChoice::Function { namespace, name } => ToolChoice::Function {
                namespace: copy_opt(namespace),
                name: name.copied(),
            },
            ToolChoice::Custom { name } => ToolChoice::Custom {
                name: name.copied(),
            },
            ToolChoice::AllowedTools { mode, tools } => ToolChoice::AllowedTools {
                mode: *mode,
                tools: copy_vec(tools),
            },
            ToolChoice::Other(x) => ToolChoice::Other(x.copied()),
        }
    }

    fn same(&self, other: &ToolChoice) -> (yes: bool) {
        match (self, other) {
            (ToolChoice::Auto, ToolChoice::Auto) => true,
            (ToolChoice::Never, ToolChoice::Never) => true,
            (ToolChoice::Required, ToolChoice::Required) => true,
            (
                ToolChoice::Function { namespace: a_namespace, name: a_name },
                ToolChoice::Function { namespace: b_namespace, name: b_name },
            ) => {
                same_opt(a_namespace, b_namespace)
                && a_name.same(b_name)
            },
            (ToolChoice::Custom { name: a_name }, ToolChoice::Custom { name: b_name }) => {
                a_name.same(b_name)
            },
            (
                ToolChoice::AllowedTools { mode: a_mode, tools: a_tools },
                ToolChoice::AllowedTools { mode: b_mode, tools: b_tools },
            ) => {
                *a_mode == *b_mode
                && same_vec(a_tools, b_tools)
            },
            (ToolChoice::Other(a), ToolChoice::Other(b)) => a.same(b),
            _ => false,
        }
    }
}

/// The gateway's routing type of a tool.
#[derive(Debug, Clone, Copy, PartialEq, Eq, Structural)]
pub enum ToolType {
    Function,
    ToolSearch,
    Custom,
    CodexNamespace,
    Mcp,
    WebSearch,
    FileSearch,
    CodeInterpreter,
}

impl View for ToolType {
    type V = ToolType;

    open spec fn view(&self) -> ToolType {
        *self
    }
}

impl Data for ToolType {
    fn copied(&self) -> (out: ToolType) {
        *self
    }

    fn same(&self, other: &ToolType) -> (yes: bool) {
        *self == *other
    }
}

/// Whether the gateway runs tools of a type, and not the client.
pub open spec fn gateway_owned_type(tool_type: ToolType) -> bool {
    tool_type is Mcp || tool_type is WebSearch || tool_type is FileSearch || tool_type is CodeInterpreter
}

/// What messages call tools of a type.
pub open spec fn tool_type_description(tool_type: ToolType) -> Seq<char> {
    match tool_type {
        ToolType::Function => "function tool"@,
        ToolType::ToolSearch => "tool search"@,
        ToolType::Custom => "custom tool"@,
        ToolType::CodexNamespace => "Codex namespace tool"@,
        ToolType::Mcp => "MCP tool"@,
        ToolType::WebSearch => "web search tool"@,
        ToolType::FileSearch => "file search tool"@,
        ToolType::CodeInterpreter => "code interpreter tool"@,
    }
}

impl ToolType {
    /// What messages call tools of this type.
    pub fn description(self) -> (text: &'static str)
        ensures
            text@ == tool_type_description(self),
    {
        match self {
            ToolType::Function => "function tool",
            ToolType::ToolSearch => "tool search",
            ToolType::Custom => "custom tool",
            ToolType::CodexNamespace => "Codex namespace tool",
            ToolType::Mcp => "MCP tool",
            ToolType::WebSearch => "web search tool",
            ToolType::FileSearch => "file search tool",
            ToolType::CodeInterpreter => "code interpreter tool",
        }
    }

    /// Whether the gateway runs tools of this type, and not the client.
    pub fn is_gateway_owned(self) -> (yes: bool)
        ensures
            yes == gateway_owned_type(self),
    {
        match self {
            ToolType::Function | ToolType::ToolSearch | ToolType::Custom | ToolType::CodexNamespace => false,
            ToolType::Mcp | ToolType::WebSearch | ToolType::FileSearch | ToolType::CodeInterpreter => true,
        }
    }
}

/// The routing type that a declaration registers as.
pub open spec fn declared_type(tool: ResponsesToolView) -> Option<ToolType> {
    match tool {
        ResponsesToolView::Function(_) => Some(ToolType::Function),
        ResponsesToolView::Mcp(_) => Some(ToolType::Mcp),
        ResponsesToolView::WebSearch(_) => Some(ToolType::WebSearch),
        ResponsesToolView::FileSearch(_) => Some(ToolType::FileSearch),
        ResponsesToolView::CodeInterpreter(_) => Some(ToolType::CodeInterpreter),
        ResponsesToolView::Namespace(_) => Some(ToolType::CodexNamespace),
        ResponsesToolView::Custom(_) => None,
        ResponsesToolView::ToolSearch(_) => None,
        ResponsesToolView::Unknown => None,
    }
}

/// Whether the gateway runs what a declaration declares.
pub open spec fn gateway_owned_tool(tool: ResponsesToolView) -> bool {
    declared_type(tool) matches Some(t) && gateway_owned_type(t)
}

impl ResponsesTool {
    /// The routing type that this declaration registers as.
    pub fn tool_type(&self) -> (tool_type: Option<ToolType>)
        ensures
            tool_type == declared_type(self@),
    {
        match self {
            ResponsesTool::Function(_) => Some(ToolType::Function),
            ResponsesTool::Mcp(_) => Some(ToolType::Mcp),
            ResponsesTool::WebSearch(_) => Some(ToolType::WebSearch),
            ResponsesTool::FileSearch(_) => Some(ToolType::FileSearch),
            ResponsesTool::CodeInterpreter(_) => Some(ToolType::CodeInterpreter),
            ResponsesTool::Namespace(_) => Some(ToolType::CodexNamespace),
            ResponsesTool::Custom(_) | ResponsesTool::ToolSearch(_) | ResponsesTool::Unknown => None,
        }
    }

    /// Whether the gateway runs what this declaration declares.
    pub fn is_gateway_owned(&self) -> (yes: bool)
        ensures
            yes == gateway_owned_tool(self@),
    {
        match self.tool_type() {
            Some(t) => t.is_gateway_owned(),
            None => false,
        }
    }
}

} // verus!
