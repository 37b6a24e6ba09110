//! The functions that an upstream server is shown in place of a request's tools.
use vstd::prelude::*;

use crate::codex::CodexNamespaceHandler;
use crate::data::{copy_opt, Data};
use crate::json::{Json, JsonObject};
#[allow(unused_imports)]
use crate::json::JsonView;
use crate::tools::{
    FunctionTool, FunctionToolParam, McpDiscoveredToolParam, McpTool, ResponsesTool,
    ToolSearchExecution, ToolSearchToolParam,
};
#[allow(unused_imports)]
use crate::tools::{
    FunctionToolParamView, FunctionToolView, McpDiscoveredToolParamView, McpToolView,
    ResponsesToolView, ToolSearchToolParamView,
};
use crate::web_search::web_search_function_tool;

verus! {

/// The function that a function declaration is.
pub open spec fn param_function(p: FunctionToolParamView) -> FunctionToolView {
    FunctionToolView {
        type_: "function"@,
        name: p.name,
        description: p.description,
        parameters: p.parameters,
        strict: p.strict,
    }
}

/// The function that a function declaration is.
pub fn function_of_param(p: &FunctionToolParam) -> (function: FunctionTool)
    ensures
        function@ == param_function(p@),
{
    FunctionTool {
        type_: "function".to_owned(),
        name: p.name.clone(),
        description: copy_opt(&p.description),
        parameters: copy_opt(&p.parameters),
        strict: p.strict,
    }
}

/// The function that stands for a tool search which the client runs. Its description
/// and its schema are the caller's.
pub open spec fn search_function(p: ToolSearchToolParamView) -> FunctionToolView {
    FunctionToolView {
        type_: "function"@,
        name: "tool_search"@,
        description: Some(p.description),
        parameters: Some(JsonView::Object(p.parameters)),
        strict: None,
    }
}

/// The function that stands for a tool search which the client runs.
pub fn tool_search_function_tool(p: &ToolSearchToolParam) -> (function: FunctionTool)
    ensures
        function@ == search_function(p@),
{
    FunctionTool {
        type_: "function".to_owned(),
        name: "tool_search".to_owned(),
        description: Some(p.description.clone()),
        parameters: Some(Json::Object(p.parameters.copy())),
        strict: None,
    }
}

/// The schema of an MCP tool. One that lists no properties has none.
pub open spec fn mcp_parameters(schema: Map<Seq<char>, JsonView>) -> Map<Seq<char>, JsonView> {
    match crate::custom::non_null(crate::json::object_field(schema, "properties"@)) {
        Some(_) => schema,
        None => schema.insert("properties"@, JsonView::Object(Map::empty())),
    }
}

/// The function that an MCP tool is, under a name.
pub open spec fn mcp_function(name: Seq<char>, tool: McpToolView) -> FunctionToolView {
    FunctionToolView {
        type_: "function"@,
        name,
        description: tool.description,
        parameters: Some(JsonView::Object(mcp_parameters(tool.input_schema))),
        strict: Some(false),
    }
}

/// The function that an MCP tool is, under a name.
pub fn mcp_tool_to_function_tool(name: &str, tool: &McpTool) -> (function: FunctionTool)
    ensures
        function@ == mcp_function(name@, tool@),
{
    let mut parameters = tool.input_schema.copy();
    let absent = match tool.input_schema.get("properties") {
        Some(value) => value.is_null(),
        None => true,
    };
    if absent {
        parameters.set("properties", Json::Object(JsonObject::new()));
    }
    FunctionTool {
        type_: "function".to_owned(),
        name: name.to_owned(),
        description: copy_opt(&tool.description),
        parameters: Some(Json::Object(parameters)),
        strict: Some(false),
    }
}

/// The functions that discovered MCP tools are, under their internal names.
pub open spec fn discovered_functions(
    tools: Seq<McpDiscoveredToolParamView>,
) -> Seq<FunctionToolView> {
    tools.map_values(|p: McpDiscoveredToolParamView| mcp_function(p.internal_name, p.tool))
}

/// The function that a discovered MCP tool is.
pub fn discovered_mcp_function_tool(param: &McpDiscoveredToolParam) -> (function: FunctionTool)
    ensures
        function@ == mcp_function(param@.internal_name, param@.tool),
{
    mcp_tool_to_function_tool(param.internal_name.as_str(), &param.tool)
}

/// The functions that discovered MCP tools are.
pub fn discovered_function_tools(
    tools: &Vec<McpDiscoveredToolParam>,
) -> (functions: Vec<FunctionTool>)
    ensures
        crate::data::views(functions@) == discovered_functions(crate::data::views(tools@)),
{
    let mut functions: Vec<FunctionTool> = Vec::new();
    let mut i: usize = 0;
    while i < tools.len()
        invariant
            i <= tools@.len(),
            functions@.len() == i,
            forall|j: int|
                0 <= j < i ==> (#[trigger] functions@[j])@ == mcp_function(
                    tools@[j]@.internal_name,
                    tools@[j]@.tool,
                ),
        decreases tools@.len() - i,
    {
        functions.push(discovered_mcp_function_tool(&tools[i]));
        i = i + 1;
    }
    proof {
        assert(crate::data::views(functions@) =~= discovered_functions(crate::data::views(tools@)));
    }
    functions
}

/// The functions that a declaration is to a server that knows only functions. A custom
/// tool gives none here: it is shown by its own handler.
pub open spec fn tool_functions(tool: ResponsesToolView) -> Seq<FunctionToolView> {
    match tool {
        ResponsesToolView::Function(p) => seq![param_function(p)],
        ResponsesToolView::Mcp(p) => discovered_functions(p.discovered_tools),
        ResponsesToolView::WebSearch(_) => seq![crate::web_search::web_search_function()],
        ResponsesToolView::Namespace(p) => crate::codex::member_functions(
            p.tools,
            p.tools.len() as int,
        ),
        ResponsesToolView::ToolSearch(p) => if p.execution == Some(ToolSearchExecution::Client) {
            seq![search_function(p)]
        } else {
            Seq::empty()
        },
        ResponsesToolView::FileSearch(_) => Seq::empty(),
        ResponsesToolView::CodeInterpreter(_) => Seq::empty(),
        ResponsesToolView::Custom(_) => Seq::empty(),
        ResponsesToolView::Unknown => Seq::empty(),
    }
}

impl ResponsesTool {
    /// The functions that this declaration is to a server that knows only functions.
    ///
    /// A function is itself, a namespace its members, an MCP server the tools that it
    /// listed, and a web search or a search that the client runs one function. A custom
    /// tool gives none here, nor do declarations that no handler exists for.
    pub fn to_function_tools(&self) -> (functions: Vec<FunctionTool>)
        ensures
            crate::data::views(functions@) == tool_functions(self@),
    {
        let mut functions: Vec<FunctionTool> = Vec::new();
        proof {
            assert(crate::data::views(functions@) =~= Seq::empty());
        }
        match self {
            ResponsesTool::Function(p) => {
                let function = function_of_param(p);
                functions.push(function);
                proof {
                    assert(crate::data::views(functions@) =~= seq![function@]);
                }
            },
            ResponsesTool::Mcp(p) => {
                return discovered_function_tools(&p.discovered_tools);
            },
            ResponsesTool::WebSearch(_) => {
                let function = web_search_function_tool();
                functions.push(function);
                proof {
                    assert(crate::data::views(functions@) =~= seq![function@]);
                }
            },
            ResponsesTool::Namespace(p) => {
                return CodexNamespaceHandler.normalize(p);
            },
            ResponsesTool::ToolSearch(p) => {
                if p.execution == Some(ToolSearchExecution::Client) {
                    let function = tool_search_function_tool(p);
                    functions.push(function);
                    proof {
                        assert(crate::data::views(functions@) =~= seq![function@]);
                    }
                }
            },
            ResponsesTool::FileSearch(_) | ResponsesTool::CodeInterpreter(_)
            | ResponsesTool::Custom(_) | ResponsesTool::Unknown => {},
        }
        functions
    }
}

} // verus!
