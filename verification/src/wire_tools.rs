//! The JSON shapes of tool declarations and choices.
use vstd::prelude::*;

use crate::data::Data;
#[allow(unused_imports)]
use crate::json::{Json, JsonObject, JsonView};
use crate::text::same_text;
#[allow(unused_imports)]
use crate::tools::{
    AllowedTool, AllowedToolView, CodeInterpreterToolParam, CodeInterpreterToolParamView,
    CodexNamespaceMember, CodexNamespaceMemberView, CodexNamespaceToolParam,
    CodexNamespaceToolParamView, FileSearchToolParam, FileSearchToolParamView, FunctionTool,
    FunctionToolParam, FunctionToolParamView, FunctionToolView, McpDiscoveredToolParam,
    McpDiscoveredToolParamView, McpTool, McpToolParam, McpToolParamView, McpToolView, ResponsesTool,
    ResponsesToolView, ToolChoice, ToolChoiceMode, ToolChoiceView, ToolSearchExecution,
    ToolSearchToolParam, ToolSearchToolParamView, WebSearchToolParam, WebSearchToolParamView,
};
use crate::wire::{
    copy_without, is_either, read_list_or_empty, read_non_empty_text, read_object_or_empty,
    read_opt_bool, read_opt_list, read_opt_text, set_bool, set_json, set_list, set_text, write_list,
    FromJson, ToJson,
};

verus! {

/// The fields of a function declaration.
pub open spec fn function_param_fields(f: FunctionToolParamView) -> Map<Seq<char>, JsonView> {
    crate::wire::with_bool(
        crate::wire::with_bool(
            crate::wire::with_json(
                crate::wire::with_text(
                    f.extra.insert("name"@, JsonView::Text(f.name)),
                    "description"@,
                    f.description,
                ),
                "parameters"@,
                f.parameters,
            ),
            "strict"@,
            f.strict,
        ),
        "defer_loading"@,
        f.defer_loading,
    )
}

/// The fields of a function declaration.
pub fn function_param_to_fields(f: &FunctionToolParam) -> (fields: JsonObject)
    ensures
        fields@ == function_param_fields(f@),
{
    let mut fields = f.extra.copied();
    fields.set_str("name", f.name.as_str());
    set_text(&mut fields, "description", &f.description);
    set_json(&mut fields, "parameters", &f.parameters);
    set_bool(&mut fields, "strict", f.strict);
    set_bool(&mut fields, "defer_loading", f.defer_loading);
    fields
}

/// A function declaration read from its fields: a name that is not empty, and
/// optional fields of the right types.
pub open spec fn function_param_of(
    fields: Map<Seq<char>, JsonView>,
) -> Option<FunctionToolParamView> {
    match (
        crate::wire::non_empty_text(fields, "name"@),
        crate::wire::opt_text(fields, "description"@),
        crate::wire::opt_bool(fields, "strict"@),
        crate::wire::opt_bool(fields, "defer_loading"@),
    ) {
        (Some(name), Some(description), Some(strict), Some(defer_loading)) => Some(
            FunctionToolParamView {
                name,
                description,
                parameters: crate::custom::non_null(
                    crate::json::object_field(fields, "parameters"@),
                ),
                strict,
                defer_loading,
                extra: crate::wire::without(
                    fields,
                    seq![
                        "type"@,
                        "name"@,
                        "description"@,
                        "parameters"@,
                        "strict"@,
                        "defer_loading"@,
                    ],
                ),
            },
        ),
        _ => None,
    }
}

/// A function declaration read from its fields.
pub fn read_function_param(fields: &JsonObject) -> (out: Option<FunctionToolParam>)
    ensures
        crate::data::opt_view(out) == function_param_of(fields@),
{
    let name = read_non_empty_text(fields, "name");
    let description = read_opt_text(fields, "description");
    let strict = read_opt_bool(fields, "strict");
    let defer_loading = read_opt_bool(fields, "defer_loading");
    let parameters = crate::custom::copy_non_null(fields.get("parameters"));
    let keys: Vec<&'static str> = vec![
        "type",
        "name",
        "description",
        "parameters",
        "strict",
        "defer_loading",
    ];
    let extra = copy_without(fields, &keys);
    proof {
        assert(keys@.map_values(|k: &'static str| k@) =~= seq![
            "type"@,
            "name"@,
            "description"@,
            "parameters"@,
            "strict"@,
            "defer_loading"@,
        ]);
    }
    match (name, description, strict, defer_loading) {
        (Some(name), Some(description), Some(strict), Some(defer_loading)) => Some(
            FunctionToolParam { name, description, parameters, strict, defer_loading, extra },
        ),
        _ => None,
    }
}

impl FromJson for CodexNamespaceMember {
    open spec fn of_json(value: JsonView) -> Option<CodexNamespaceMemberView> {
        match value {
            JsonView::Object(fields) => match crate::json::text_field(fields, "type"@) {
                Some(t) => if t == "function"@ {
                    match function_param_of(fields) {
                        Some(f) => Some(CodexNamespaceMemberView::Function(f)),
                        None => None,
                    }
                } else {
                    Some(CodexNamespaceMemberView::Unknown)
                },
                None => None,
            },
            _ => None,
        }
    }

    fn from_json(value: &Json) -> (out: Option<CodexNamespaceMember>) {
        match value {
            Json::Object(fields) => match fields.get_str("type") {
                Some(t) => if same_text(t, "function") {
                    match read_function_param(fields) {
                        Some(f) => Some(CodexNamespaceMember::Function(f)),
                        None => None,
                    }
                } else {
                    Some(CodexNamespaceMember::Unknown)
                },
                None => None,
            },
            _ => None,
        }
    }
}

/// A namespace declaration read from its fields.
pub open spec fn namespace_param_of(fields: Map<Seq<char>, JsonView>) -> Option<
    CodexNamespaceToolParamView,
> {
    match (
        crate::json::text_field(fields, "name"@),
        crate::wire::opt_text(fields, "description"@),
        crate::wire::list_or_empty::<CodexNamespaceMember>(fields, "tools"@),
    ) {
        (Some(name), Some(description), Some(tools)) => Some(
            CodexNamespaceToolParamView {
                name,
                description,
                tools,
                extra: crate::wire::without(
                    fields,
                    seq!["type"@, "name"@, "description"@, "tools"@],
                ),
            },
        ),
        _ => None,
    }
}

/// A namespace declaration read from its fields.
pub fn read_namespace_param(fields: &JsonObject) -> (out: Option<CodexNamespaceToolParam>)
    ensures
        crate::data::opt_view(out) == namespace_param_of(fields@),
{
    let name = fields.get_str("name");
    let description = read_opt_text(fields, "description");
    let tools = read_list_or_empty::<CodexNamespaceMember>(fields, "tools");
    let keys: Vec<&'static str> = vec!["type", "name", "description", "tools"];
    let extra = copy_without(fields, &keys);
    proof {
        assert(keys@.map_values(|k: &'static str| k@) =~= seq![
            "type"@,
            "name"@,
            "description"@,
            "tools"@,
        ]);
    }
    match (name, description, tools) {
        (Some(name), Some(description), Some(tools)) => Some(
            CodexNamespaceToolParam { name: name.to_owned(), description, tools, extra },
        ),
        _ => None,
    }
}

impl FromJson for McpTool {
    open spec fn of_json(value: JsonView) -> Option<McpToolView> {
        match value {
            JsonView::Object(fields) => match (
                crate::json::text_field(fields, "name"@),
                crate::wire::opt_text(fields, "description"@),
                mcp_schema_of(fields),
            ) {
                (Some(name), Some(description), Some(input_schema)) => Some(
                    McpToolView {
                        name,
                        description,
                        input_schema,
                        annotations: crate::custom::non_null(
                            crate::json::object_field(fields, "annotations"@),
                        ),
                    },
                ),
                _ => None,
            },
            _ => None,
        }
    }

    fn from_json(value: &Json) -> (out: Option<McpTool>) {
        match value {
            Json::Object(fields) => {
                let name = fields.get_str("name");
                let description = read_opt_text(fields, "description");
                let schema = if fields.contains_key("inputSchema") {
                    read_object_or_empty(fields, "inputSchema")
                } else {
                    read_object_or_empty(fields, "input_schema")
                };
                let annotations = crate::custom::copy_non_null(fields.get("annotations"));
                match (name, description, schema) {
                    (Some(name), Some(description), Some(input_schema)) => Some(
                        McpTool { name: name.to_owned(), description, input_schema, annotations },
                    ),
                    _ => None,
                }
            },
            _ => None,
        }
    }
}

/// The schema of a listed tool, under the name that servers give it or the one
/// that responses do.
pub open spec fn mcp_schema_of(
    fields: Map<Seq<char>, JsonView>,
) -> Option<Map<Seq<char>, JsonView>> {
    if fields.contains_key("inputSchema"@) {
        crate::wire::object_or_empty(fields, "inputSchema"@)
    } else {
        crate::wire::object_or_empty(fields, "input_schema"@)
    }
}

/// The fields of a listed tool, with the schema under the given name.
pub open spec fn mcp_tool_fields(
    tool: McpToolView,
    schema_key: Seq<char>,
) -> Map<Seq<char>, JsonView> {
    crate::wire::with_json(
        crate::wire::with_text(
            Map::<Seq<char>, JsonView>::empty().insert("name"@, JsonView::Text(tool.name)),
            "description"@,
            tool.description,
        ).insert(schema_key, JsonView::Object(tool.input_schema)),
        "annotations"@,
        tool.annotations,
    )
}

/// The fields of a listed tool, with the schema under the given name.
pub fn mcp_tool_to_fields(tool: &McpTool, schema_key: &str) -> (fields: JsonObject)
    ensures
        fields@ == mcp_tool_fields(tool@, schema_key@),
{
    let mut fields = JsonObject::new();
    fields.set_str("name", tool.name.as_str());
    set_text(&mut fields, "description", &tool.description);
    fields.set(schema_key, Json::Object(tool.input_schema.copy()));
    set_json(&mut fields, "annotations", &tool.annotations);
    fields
}

impl ToJson for McpTool {
    open spec fn json_of(tool: McpToolView) -> JsonView {
        JsonView::Object(mcp_tool_fields(tool, "input_schema"@))
    }

    fn to_json(&self) -> (out: Json) {
        Json::Object(mcp_tool_to_fields(self, "input_schema"))
    }
}

impl FromJson for McpDiscoveredToolParam {
    open spec fn of_json(value: JsonView) -> Option<McpDiscoveredToolParamView> {
        match value {
            JsonView::Object(fields) => match (
                crate::json::text_field(fields, "server_label"@),
                crate::json::text_field(fields, "tool_name"@),
                crate::json::text_field(fields, "internal_name"@),
                mcp_tool_field(fields),
            ) {
                (Some(server_label), Some(tool_name), Some(internal_name), Some(tool)) => Some(
                    McpDiscoveredToolParamView { server_label, tool_name, internal_name, tool },
                ),
                _ => None,
            },
            _ => None,
        }
    }

    fn from_json(value: &Json) -> (out: Option<McpDiscoveredToolParam>) {
        match value {
            Json::Object(fields) => {
                let tool = match fields.get("tool") {
                    Some(tool) => McpTool::from_json(tool),
                    None => None,
                };
                match (
                    fields.get_str("server_label"),
                    fields.get_str("tool_name"),
                    fields.get_str("internal_name"),
                    tool,
                ) {
                    (Some(server_label), Some(tool_name), Some(internal_name), Some(tool)) => Some(
                        McpDiscoveredToolParam {
                            server_label: server_label.to_owned(),
                            tool_name: tool_name.to_owned(),
                            internal_name: internal_name.to_owned(),
                            tool,
                        },
                    ),
                    _ => None,
                }
            },
            _ => None,
        }
    }
}

/// The tool that a discovered tool's fields hold.
pub open spec fn mcp_tool_field(fields: Map<Seq<char>, JsonView>) -> Option<McpToolView> {
    match crate::json::object_field(fields, "tool"@) {
        Some(tool) => McpTool::of_json(tool),
        None => None,
    }
}

impl ToJson for McpDiscoveredToolParam {
    open spec fn json_of(p: McpDiscoveredToolParamView) -> JsonView {
        JsonView::Object(
            Map::<Seq<char>, JsonView>::empty().insert(
                "server_label"@,
                JsonView::Text(p.server_label),
            ).insert("tool_name"@, JsonView::Text(p.tool_name)).insert(
                "internal_name"@,
                JsonView::Text(p.internal_name),
            ).insert("tool"@, JsonView::Object(mcp_tool_fields(p.tool, "inputSchema"@))),
        )
    }

    fn to_json(&self) -> (out: Json) {
        let mut fields = JsonObject::new();
        fields.set_str("server_label", self.server_label.as_str());
        fields.set_str("tool_name", self.tool_name.as_str());
        fields.set_str("internal_name", self.internal_name.as_str());
        fields.set("tool", Json::Object(mcp_tool_to_fields(&self.tool, "inputSchema")));
        Json::Object(fields)
    }
}

/// An MCP declaration read from its fields.
pub open spec fn mcp_param_of(fields: Map<Seq<char>, JsonView>) -> Option<McpToolParamView> {
    match (
        (
            crate::json::text_field(fields, "server_label"@),
            crate::wire::opt_text(fields, "server_description"@),
            crate::wire::opt_text(fields, "server_url"@),
            crate::wire::opt_text(fields, "connector_id"@),
            crate::wire::opt_text(fields, "authorization"@),
        ),
        (
            crate::wire::object_or_empty(fields, "headers"@),
            crate::wire::opt_text(fields, "require_approval"@),
            crate::wire::opt_list::<String>(fields, "allowed_tools"@),
            crate::wire::opt_bool(fields, "defer_loading"@),
            crate::wire::list_or_empty::<McpDiscoveredToolParam>(
                fields,
                "_agentic_discovered_tools"@,
            ),
        ),
    ) {
        (
            (Some(label), Some(description), Some(url), Some(connector), Some(authorization)),
            (Some(headers), Some(approval), Some(allowed), Some(defer), Some(discovered)),
        ) => Some(
            McpToolParamView {
                server_label: label,
                server_description: description,
                server_url: url,
                connector_id: connector,
                authorization,
                headers,
                require_approval: approval,
                allowed_tools: allowed,
                defer_loading: defer,
                discovered_tools: discovered,
            },
        ),
        _ => None,
    }
}

/// An MCP declaration read from its fields.
pub fn read_mcp_param(fields: &JsonObject) -> (out: Option<McpToolParam>)
    ensures
        crate::data::opt_view(out) == mcp_param_of(fields@),
{
    let first = (
        fields.get_str("server_label"),
        read_opt_text(fields, "server_description"),
        read_opt_text(fields, "server_url"),
        read_opt_text(fields, "connector_id"),
        read_opt_text(fields, "authorization"),
    );
    let second = (
        read_object_or_empty(fields, "headers"),
        read_opt_text(fields, "require_approval"),
        read_opt_list::<String>(fields, "allowed_tools"),
        read_opt_bool(fields, "defer_loading"),
        read_list_or_empty::<McpDiscoveredToolParam>(fields, "_agentic_discovered_tools"),
    );
    match (first, second) {
        (
            (
                Some(label),
                Some(server_description),
                Some(server_url),
                Some(connector_id),
                Some(authorization),
            ),
            (
                Some(headers),
                Some(require_approval),
                Some(allowed_tools),
                Some(defer_loading),
                Some(discovered_tools),
            ),
        ) => Some(
            McpToolParam {
                server_label: label.to_owned(),
                server_description,
                server_url,
                connector_id,
                authorization,
                headers,
                require_approval,
                allowed_tools,
                defer_loading,
                discovered_tools,
            },
        ),
        _ => None,
    }
}

/// Who runs a search, from the text that says so; nothing where it is another.
pub open spec fn execution_of(text: Option<Seq<char>>) -> Option<Option<ToolSearchExecution>> {
    match text {
        None => Some(None),
        Some(t) => if t == "client"@ {
            Some(Some(ToolSearchExecution::Client))
        } else if t == "server"@ {
            Some(Some(ToolSearchExecution::Server))
        } else {
            None
        },
    }
}

/// Who runs a search, from the text that says so.
pub fn read_execution(text: &Option<String>) -> (out: Option<Option<ToolSearchExecution>>)
    ensures
        out == execution_of(crate::data::opt_view(*text)),
{
    match text {
        None => Some(None),
        Some(t) => if same_text(t.as_str(), "client") {
            Some(Some(ToolSearchExecution::Client))
        } else if same_text(t.as_str(), "server") {
            Some(Some(ToolSearchExecution::Server))
        } else {
            None
        },
    }
}

/// A tool-search declaration read from its fields.
pub open spec fn search_param_of(
    fields: Map<Seq<char>, JsonView>,
) -> Option<ToolSearchToolParamView> {
    match (
        crate::wire::opt_text(fields, "execution"@),
        crate::wire::opt_text(fields, "description"@),
        crate::wire::object_or_empty(fields, "parameters"@),
    ) {
        (Some(execution), Some(description), Some(parameters)) => match execution_of(execution) {
            Some(execution) => Some(
                ToolSearchToolParamView {
                    execution,
                    description: match description {
                        Some(d) => d,
                        None => Seq::empty(),
                    },
                    parameters,
                },
            ),
            None => None,
        },
        _ => None,
    }
}

/// A tool-search declaration read from its fields.
pub fn read_search_param(fields: &JsonObject) -> (out: Option<ToolSearchToolParam>)
    ensures
        crate::data::opt_view(out) == search_param_of(fields@),
{
    match (
        read_opt_text(fields, "execution"),
        read_opt_text(fields, "description"),
        read_object_or_empty(fields, "parameters"),
    ) {
        (Some(execution), Some(description), Some(parameters)) => match read_execution(&execution) {
            Some(execution) => {
                let description = match description {
                    Some(d) => d,
                    None => String::new(),
                };
                Some(ToolSearchToolParam { execution, description, parameters })
            },
            None => None,
        },
        _ => None,
    }
}

/// A declaration whose kind is named by `type_`, read from its fields. A kind
/// that is not known is kept as such.
pub open spec fn responses_tool_of(type_: Seq<char>, fields: Map<Seq<char>, JsonView>) -> Option<
    ResponsesToolView,
> {
    if type_ == "function"@ {
        match function_param_of(fields) {
            Some(p) => Some(ResponsesToolView::Function(p)),
            None => None,
        }
    } else if type_ == "tool_search"@ {
        match search_param_of(fields) {
            Some(p) => Some(ResponsesToolView::ToolSearch(p)),
            None => None,
        }
    } else if type_ == "mcp"@ {
        match mcp_param_of(fields) {
            Some(p) => Some(ResponsesToolView::Mcp(p)),
            None => None,
        }
    } else if type_ == "namespace"@ {
        match namespace_param_of(fields) {
            Some(p) => Some(ResponsesToolView::Namespace(p)),
            None => None,
        }
    } else if type_ == "custom"@ {
        match crate::custom::custom_param_of(JsonView::Object(fields.remove("type"@))) {
            Some(p) => Some(ResponsesToolView::Custom(p)),
            None => None,
        }
    } else if type_ == "web_search_preview"@ || type_ == "web_search"@ {
        Some(
            ResponsesToolView::WebSearch(WebSearchToolParamView { fields: fields.remove("type"@) }),
        )
    } else if type_ == "file_search"@ {
        Some(
            ResponsesToolView::FileSearch(
                FileSearchToolParamView { fields: fields.remove("type"@) },
            ),
        )
    } else if type_ == "code_interpreter"@ {
        Some(
            ResponsesToolView::CodeInterpreter(
                CodeInterpreterToolParamView { fields: fields.remove("type"@) },
            ),
        )
    } else {
        Some(ResponsesToolView::Unknown)
    }
}

fn read_responses_tool(type_: &str, fields: &JsonObject) -> (out: Option<ResponsesTool>)
    ensures
        crate::data::opt_view(out) == responses_tool_of(type_@, fields@),
{
    if same_text(type_, "function") {
        return match read_function_param(fields) {
            Some(p) => Some(ResponsesTool::Function(p)),
            None => None,
        };
    }
    if same_text(type_, "tool_search") {
        return match read_search_param(fields) {
            Some(p) => Some(ResponsesTool::ToolSearch(p)),
            None => None,
        };
    }
    if same_text(type_, "mcp") {
        return match read_mcp_param(fields) {
            Some(p) => Some(ResponsesTool::Mcp(p)),
            None => None,
        };
    }
    if same_text(type_, "namespace") {
        return match read_namespace_param(fields) {
            Some(p) => Some(ResponsesTool::Namespace(p)),
            None => None,
        };
    }
    let mut rest = fields.copy();
    rest.remove("type");
    if same_text(type_, "custom") {
        return match crate::custom::custom_param_from_json(&Json::Object(rest)) {
            Some(p) => Some(ResponsesTool::Custom(p)),
            None => None,
        };
    }
    if is_either(type_, "web_search_preview", "web_search") {
        return Some(ResponsesTool::WebSearch(WebSearchToolParam { fields: rest }));
    }
    if same_text(type_, "file_search") {
        return Some(ResponsesTool::FileSearch(FileSearchToolParam { fields: rest }));
    }
    if same_text(type_, "code_interpreter") {
        return Some(ResponsesTool::CodeInterpreter(CodeInterpreterToolParam { fields: rest }));
    }
    Some(ResponsesTool::Unknown)
}

impl FromJson for ResponsesTool {
    open spec fn of_json(value: JsonView) -> Option<ResponsesToolView> {
        match value {
            JsonView::Object(fields) => match crate::json::text_field(fields, "type"@) {
                Some(t) => responses_tool_of(t, fields),
                None => None,
            },
            _ => None,
        }
    }

    fn from_json(value: &Json) -> (out: Option<ResponsesTool>) {
        match value {
            Json::Object(fields) => match fields.get_str("type") {
                Some(t) => read_responses_tool(t, fields),
                None => None,
            },
            _ => None,
        }
    }
}

impl ToJson for FunctionTool {
    open spec fn json_of(f: FunctionToolView) -> JsonView {
        JsonView::Object(
            crate::wire::with_bool(
                crate::wire::with_json(
                    crate::wire::with_text(
                        Map::<Seq<char>, JsonView>::empty().insert(
                            "type"@,
                            JsonView::Text(f.type_),
                        ).insert("name"@, JsonView::Text(f.name)),
                        "description"@,
                        f.description,
                    ),
                    "parameters"@,
                    f.parameters,
                ),
                "strict"@,
                f.strict,
            ),
        )
    }

    fn to_json(&self) -> (out: Json) {
        let mut fields = JsonObject::new();
        fields.set_str("type", self.type_.as_str());
        fields.set_str("name", self.name.as_str());
        set_text(&mut fields, "description", &self.description);
        set_json(&mut fields, "parameters", &self.parameters);
        set_bool(&mut fields, "strict", self.strict);
        Json::Object(fields)
    }
}

/// The fields of a namespace member.
pub open spec fn member_json(member: CodexNamespaceMemberView) -> JsonView {
    match member {
        CodexNamespaceMemberView::Function(f) => JsonView::Object(
            function_param_fields(f).insert("type"@, JsonView::Text("function"@)),
        ),
        CodexNamespaceMemberView::Unknown => JsonView::Object(
            Map::<Seq<char>, JsonView>::empty().insert("type"@, JsonView::Text("unknown"@)),
        ),
    }
}

impl ToJson for CodexNamespaceMember {
    open spec fn json_of(member: CodexNamespaceMemberView) -> JsonView {
        member_json(member)
    }

    fn to_json(&self) -> (out: Json) {
        match self {
            CodexNamespaceMember::Function(f) => {
                let mut fields = function_param_to_fields(f);
                fields.set_str("type", "function");
                Json::Object(fields)
            },
            CodexNamespaceMember::Unknown => {
                let mut fields = JsonObject::new();
                fields.set_str("type", "unknown");
                Json::Object(fields)
            },
        }
    }
}

/// The fields of an MCP declaration.
pub open spec fn mcp_param_fields(m: McpToolParamView) -> Map<Seq<char>, JsonView> {
    let labelled = Map::<Seq<char>, JsonView>::empty().insert(
        "server_label"@,
        JsonView::Text(m.server_label),
    );
    let described = crate::wire::with_text(labelled, "server_description"@, m.server_description);
    let placed = crate::wire::with_text(described, "server_url"@, m.server_url);
    let connected = crate::wire::with_text(placed, "connector_id"@, m.connector_id);
    let authorized = crate::wire::with_text(connected, "authorization"@, m.authorization);
    let headed = if m.headers == Map::<Seq<char>, JsonView>::empty() {
        authorized
    } else {
        authorized.insert("headers"@, JsonView::Object(m.headers))
    };
    let approved = crate::wire::with_text(headed, "require_approval"@, m.require_approval);
    let allowed = crate::wire::with_list::<String>(approved, "allowed_tools"@, m.allowed_tools);
    let deferred = crate::wire::with_bool(allowed, "defer_loading"@, m.defer_loading);
    if m.discovered_tools.len() == 0 {
        deferred
    } else {
        deferred.insert(
            "_agentic_discovered_tools"@,
            JsonView::Array(crate::wire::list_json::<McpDiscoveredToolParam>(m.discovered_tools)),
        )
    }
}

/// The fields of an MCP declaration.
pub fn mcp_param_to_fields(m: &McpToolParam) -> (fields: JsonObject)
    ensures
        fields@ == mcp_param_fields(m@),
{
    let mut fields = JsonObject::new();
    fields.set_str("server_label", m.server_label.as_str());
    set_text(&mut fields, "server_description", &m.server_description);
    set_text(&mut fields, "server_url", &m.server_url);
    set_text(&mut fields, "connector_id", &m.connector_id);
    set_text(&mut fields, "authorization", &m.authorization);
    if !m.headers.is_empty() {
        fields.set("headers", Json::Object(m.headers.copy()));
    }
    set_text(&mut fields, "require_approval", &m.require_approval);
    set_list::<String>(&mut fields, "allowed_tools", &m.allowed_tools);
    set_bool(&mut fields, "defer_loading", m.defer_loading);
    if m.discovered_tools.len() > 0 {
        fields.set(
            "_agentic_discovered_tools",
            write_list::<McpDiscoveredToolParam>(&m.discovered_tools),
        );
    }
    fields
}

/// The fields of a declaration and the kind that it says.
pub open spec fn responses_tool_fields(
    tool: ResponsesToolView,
) -> (Seq<char>, Map<Seq<char>, JsonView>) {
    match tool {
        ResponsesToolView::Function(f) => ("function"@, function_param_fields(f)),
        ResponsesToolView::Mcp(m) => ("mcp"@, mcp_param_fields(m)),
        ResponsesToolView::Namespace(n) => (
            "namespace"@,
            crate::wire::with_text(
                n.extra.insert("name"@, JsonView::Text(n.name)),
                "description"@,
                n.description,
            ).insert(
                "tools"@,
                JsonView::Array(crate::wire::list_json::<CodexNamespaceMember>(n.tools)),
            ),
        ),
        ResponsesToolView::Custom(c) => (
            "custom"@,
            crate::wire::with_json(
                crate::wire::with_text(
                    c.extra.insert("name"@, JsonView::Text(c.name)),
                    "description"@,
                    c.description,
                ),
                "format"@,
                c.format,
            ),
        ),
        ResponsesToolView::ToolSearch(t) => (
            "tool_search"@,
            crate::wire::with_text(
                Map::<Seq<char>, JsonView>::empty(),
                "execution"@,
                match t.execution {
                    Some(e) => Some(crate::wire_items::execution_text(e)),
                    None => None,
                },
            ).insert("description"@, JsonView::Text(t.description)).insert(
                "parameters"@,
                JsonView::Object(t.parameters),
            ),
        ),
        ResponsesToolView::WebSearch(p) => ("web_search_preview"@, p.fields),
        ResponsesToolView::FileSearch(p) => ("file_search"@, p.fields),
        ResponsesToolView::CodeInterpreter(p) => ("code_interpreter"@, p.fields),
        ResponsesToolView::Unknown => ("unknown"@, Map::empty()),
    }
}

pub fn responses_tool_to_fields(tool: &ResponsesTool) -> (out: (&'static str, JsonObject))
    ensures
        (out.0@, out.1@) == responses_tool_fields(tool@),
{
    match tool {
        ResponsesTool::Function(f) => ("function", function_param_to_fields(f)),
        ResponsesTool::Mcp(m) => ("mcp", mcp_param_to_fields(m)),
        ResponsesTool::Namespace(n) => {
            let mut fields = n.extra.copied();
            fields.set_str("name", n.name.as_str());
            set_text(&mut fields, "description", &n.description);
            fields.set("tools", write_list::<CodexNamespaceMember>(&n.tools));
            ("namespace", fields)
        },
        ResponsesTool::Custom(c) => {
            let mut fields = c.extra.copied();
            fields.set_str("name", c.name.as_str());
            set_text(&mut fields, "description", &c.description);
            set_json(&mut fields, "format", &c.format);
            ("custom", fields)
        },
        ResponsesTool::ToolSearch(t) => {
            let mut fields = JsonObject::new();
            if let Some(e) = t.execution {
                fields.set_str("execution", e.as_str());
            }
            fields.set_str("description", t.description.as_str());
            fields.set("parameters", Json::Object(t.parameters.copy()));
            ("tool_search", fields)
        },
        ResponsesTool::WebSearch(p) => ("web_search_preview", p.fields.copy()),
        ResponsesTool::FileSearch(p) => ("file_search", p.fields.copy()),
        ResponsesTool::CodeInterpreter(p) => ("code_interpreter", p.fields.copy()),
        ResponsesTool::Unknown => ("unknown", JsonObject::new()),
    }
}

impl ToJson for ResponsesTool {
    open spec fn json_of(tool: ResponsesToolView) -> JsonView {
        JsonView::Object(
            responses_tool_fields(tool).1.insert(
                "type"@,
                JsonView::Text(responses_tool_fields(tool).0),
            ),
        )
    }

    fn to_json(&self) -> (out: Json) {
        let (type_, fields) = responses_tool_to_fields(self);
        let mut fields = fields;
        fields.set_str("type", type_);
        Json::Object(fields)
    }
}

impl FromJson for AllowedTool {
    open spec fn of_json(value: JsonView) -> Option<AllowedToolView> {
        match value {
            JsonView::Object(fields) => match (
                crate::json::text_field(fields, "type"@),
                crate::json::text_field(fields, "name"@),
            ) {
                (Some(type_), Some(name)) => Some(AllowedToolView { type_, name }),
                _ => None,
            },
            _ => None,
        }
    }

    fn from_json(value: &Json) -> (out: Option<AllowedTool>) {
        match value {
            Json::Object(fields) => match (fields.get_str("type"), fields.get_str("name")) {
                (Some(type_), Some(name)) => Some(
                    AllowedTool { type_: type_.to_owned(), name: name.to_owned() },
                ),
                _ => None,
            },
            _ => None,
        }
    }
}

impl ToJson for AllowedTool {
    open spec fn json_of(tool: AllowedToolView) -> JsonView {
        JsonView::Object(
            Map::<Seq<char>, JsonView>::empty().insert("type"@, JsonView::Text(tool.type_)).insert(
                "name"@,
                JsonView::Text(tool.name),
            ),
        )
    }

    fn to_json(&self) -> (out: Json) {
        let mut fields = JsonObject::new();
        fields.set_str("type", self.type_.as_str());
        fields.set_str("name", self.name.as_str());
        Json::Object(fields)
    }
}

/// A choice that is given by its fields.
pub open spec fn choice_of_fields(fields: Map<Seq<char>, JsonView>) -> Option<ToolChoiceView> {
    let type_ = crate::json::text_field(fields, "type"@);
    if type_ == Some("function"@) {
        match (
            crate::json::text_field(fields, "name"@),
            crate::wire::opt_text(fields, "namespace"@),
        ) {
            (Some(name), Some(namespace)) => Some(ToolChoiceView::Function { namespace, name }),
            _ => None,
        }
    } else if type_ == Some("custom"@) {
        match crate::json::text_field(fields, "name"@) {
            Some(name) => Some(ToolChoiceView::Custom { name }),
            None => None,
        }
    } else if type_ == Some("allowed_tools"@) {
        match (
            crate::json::text_field(fields, "mode"@),
            crate::wire::list_or_empty::<AllowedTool>(fields, "tools"@),
        ) {
            (Some(mode), Some(tools)) => if mode == "auto"@ {
                Some(ToolChoiceView::AllowedTools { mode: ToolChoiceMode::Auto, tools })
            } else if mode == "required"@ {
                Some(ToolChoiceView::AllowedTools { mode: ToolChoiceMode::Required, tools })
            } else {
                None
            },
            _ => None,
        }
    } else {
        Some(ToolChoiceView::Other(JsonView::Object(fields)))
    }
}

fn read_choice_fields(fields: &JsonObject) -> (out: Option<ToolChoice>)
    ensures
        crate::data::opt_view(out) == choice_of_fields(fields@),
{
    if fields.field_is("type", "function") {
        return match (fields.get_str("name"), read_opt_text(fields, "namespace")) {
            (Some(name), Some(namespace)) => Some(
                ToolChoice::Function { namespace, name: name.to_owned() },
            ),
            _ => None,
        };
    }
    if fields.field_is("type", "custom") {
        return match fields.get_str("name") {
            Some(name) => Some(ToolChoice::Custom { name: name.to_owned() }),
            None => None,
        };
    }
    if fields.field_is("type", "allowed_tools") {
        return match (fields.get_str("mode"), read_list_or_empty::<AllowedTool>(fields, "tools")) {
            (Some(mode), Some(tools)) => if same_text(mode, "auto") {
                Some(ToolChoice::AllowedTools { mode: ToolChoiceMode::Auto, tools })
            } else if same_text(mode, "required") {
                Some(ToolChoice::AllowedTools { mode: ToolChoiceMode::Required, tools })
            } else {
                None
            },
            _ => None,
        };
    }
    Some(ToolChoice::Other(Json::Object(fields.copy())))
}

impl FromJson for ToolChoice {
    open spec fn of_json(value: JsonView) -> Option<ToolChoiceView> {
        match value {
            JsonView::Text(t) => if t == "auto"@ {
                Some(ToolChoiceView::Auto)
            } else if t == "none"@ {
                Some(ToolChoiceView::Never)
            } else if t == "required"@ {
                Some(ToolChoiceView::Required)
            } else {
                None
            },
            JsonView::Object(fields) => choice_of_fields(fields),
            _ => None,
        }
    }

    fn from_json(value: &Json) -> (out: Option<ToolChoice>) {
        match value {
            Json::Text(t) => if same_text(t.as_str(), "auto") {
                Some(ToolChoice::Auto)
            } else if same_text(t.as_str(), "none") {
                Some(ToolChoice::Never)
            } else if same_text(t.as_str(), "required") {
                Some(ToolChoice::Required)
            } else {
                None
            },
            Json::Object(fields) => read_choice_fields(fields),
            _ => None,
        }
    }
}

impl ToJson for ToolChoice {
    open spec fn json_of(choice: ToolChoiceView) -> JsonView {
        match choice {
            ToolChoiceView::Auto => JsonView::Text("auto"@),
            ToolChoiceView::Never => JsonView::Text("none"@),
            ToolChoiceView::Required => JsonView::Text("required"@),
            ToolChoiceView::Function { namespace, name } => JsonView::Object(
                crate::wire::with_text(
                    Map::<Seq<char>, JsonView>::empty().insert(
                        "type"@,
                        JsonView::Text("function"@),
                    ).insert("name"@, JsonView::Text(name)),
                    "namespace"@,
                    namespace,
                ),
            ),
            ToolChoiceView::Custom { name } => JsonView::Object(
                Map::<Seq<char>, JsonView>::empty()
                    .insert("type"@, JsonView::Text("custom"@))
                    .insert(
                    "name"@,
                    JsonView::Text(name),
                ),
            ),
            ToolChoiceView::AllowedTools { mode, tools } => JsonView::Object(
                Map::<Seq<char>, JsonView>::empty().insert(
                    "type"@,
                    JsonView::Text("allowed_tools"@),
                ).insert(
                    "mode"@,
                    JsonView::Text(
                        match mode {
                            ToolChoiceMode::Auto => "auto"@,
                            ToolChoiceMode::Required => "required"@,
                        },
                    ),
                ).insert(
                    "tools"@,
                    JsonView::Array(crate::wire::list_json::<AllowedTool>(tools)),
                ),
            ),
            ToolChoiceView::Other(value) => value,
        }
    }

    fn to_json(&self) -> (out: Json) {
        match self {
            ToolChoice::Auto => Json::text("auto"),
            ToolChoice::Never => Json::text("none"),
            ToolChoice::Required => Json::text("required"),
            ToolChoice::Function { namespace, name } => {
                let mut fields = JsonObject::new();
                fields.set_str("type", "function");
                fields.set_str("name", name.as_str());
                set_text(&mut fields, "namespace", namespace);
                Json::Object(fields)
            },
            ToolChoice::Custom { name } => {
                let mut fields = JsonObject::new();
                fields.set_str("type", "custom");
                fields.set_str("name", name.as_str());
                Json::Object(fields)
            },
            ToolChoice::AllowedTools { mode, tools } => {
                let mut fields = JsonObject::new();
                fields.set_str("type", "allowed_tools");
                fields.set_str(
                    "mode",
                    match mode {
                        ToolChoiceMode::Auto => "auto",
                        ToolChoiceMode::Required => "required",
                    },
                );
                fields.set("tools", write_list::<AllowedTool>(tools));
                Json::Object(fields)
            },
            ToolChoice::Other(value) => value.copy(),
        }
    }
}

} // verus!
