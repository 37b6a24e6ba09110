//! What is written is read back as it was.
use vstd::prelude::*;

#[allow(unused_imports)]
use crate::events::SSEEventType;
#[allow(unused_imports)]
use crate::items::{
    GatewayCallStatus, McpCallErrorView, McpCallStatus, MessageStatus, OutputItem, OutputItemView,
    OutputTextContent, ReasoningTextContent, WebSearchCallStatus,
};
#[allow(unused_imports)]
use crate::json::JsonView;
#[allow(unused_imports)]
use crate::tools::{
    McpDiscoveredToolParam, McpDiscoveredToolParamView, McpTool, McpToolView, ToolSearchExecution,
    ToolSearchStatus,
};
#[allow(unused_imports)]
use crate::wire::{FromJson, ToJson};

verus! {

/// The name of a status is read back as the status, of whatever kind it is.
pub proof fn statuses_are_read_back(
    message: MessageStatus,
    search: ToolSearchStatus,
    mcp: McpCallStatus,
    web: WebSearchCallStatus,
    gateway: GatewayCallStatus,
    execution: ToolSearchExecution,
)
    ensures
        crate::wire_items::message_status_of(crate::wire_items::message_status_text(message))
            == Some(message),
        crate::wire_items::tool_search_status_of(
            crate::wire_items::tool_search_status_text(search),
        ) == Some(search),
        crate::wire_items::mcp_call_status_of(crate::wire_items::mcp_call_status_text(mcp)) == Some(
            mcp,
        ),
        crate::wire_items::web_search_call_status_of(
            crate::wire_items::web_search_call_status_text(web),
        ) == Some(web),
        crate::wire_items::gateway_call_status_of(
            crate::wire_items::gateway_call_status_text(gateway),
        ) == Some(gateway),
        crate::wire_tools::execution_of(Some(crate::wire_items::execution_text(execution))) == Some(
            Some(execution),
        ),
{
    status_names_differ();
}

/// The name of an event is read back as its kind.
pub proof fn event_names_are_read_back(event_type: SSEEventType)
    requires
        event_type != SSEEventType::Other,
    ensures
        crate::events::event_type_of(crate::events::event_name(event_type)) == event_type,
{
    event_names_differ();
}

/// A list of what is read back is read back.
proof fn lists_are_read_back<T: FromJson + ToJson>(items: Seq<<T as View>::V>, n: int)
    requires
        0 <= n <= items.len(),
        forall|i: int|
            0 <= i < n ==> <T as FromJson>::of_json(<T as ToJson>::json_of(#[trigger] items[i]))
                == Some(items[i]),
    ensures
        crate::wire::list_of::<T>(crate::wire::list_json::<T>(items), n) == Some(items.take(n)),
    decreases n,
{
    if n > 0 {
        lists_are_read_back::<T>(items, n - 1);
        assert(items.take(n) =~= items.take(n - 1).push(items[n - 1]));
    } else {
        assert(items.take(0) =~= Seq::empty());
    }
}

/// Whether writing a tool's annotations says anything.
pub open spec fn says_annotations(tool: McpToolView) -> bool {
    tool.annotations != Some(JsonView::Null)
}

/// A listed tool is read back, under whatever name its schema stands.
pub proof fn listed_tools_are_read_back(tool: McpToolView)
    requires
        says_annotations(tool),
    ensures
        <McpTool as FromJson>::of_json(<McpTool as ToJson>::json_of(tool)) == Some(tool),
        <McpTool as FromJson>::of_json(
            JsonView::Object(crate::wire_tools::mcp_tool_fields(tool, "inputSchema"@)),
        ) == Some(tool),
{
    tool_keys_differ();
}

/// The configuration of a discovered tool is read back.
pub proof fn discovered_tools_are_read_back(param: McpDiscoveredToolParamView)
    requires
        says_annotations(param.tool),
    ensures
        <McpDiscoveredToolParam as FromJson>::of_json(
            <McpDiscoveredToolParam as ToJson>::json_of(param),
        ) == Some(param),
{
    listed_tools_are_read_back(param.tool);
    tool_keys_differ();
}

/// Whether an item can be told from what is written of it.
pub open spec fn is_told_apart(item: OutputItemView) -> bool {
    match item {
        OutputItemView::McpToolCall(_) => false,
        OutputItemView::McpCall(call) => call.error matches Some(McpCallErrorView::Unknown(v)) ==> v
            !is Text && v !is Null,
        OutputItemView::McpListTools(list) => forall|i: int|
            0 <= i < list.tools.len() ==> says_annotations(#[trigger] list.tools[i]),
        _ => true,
    }
}

/// An output item is read back as it was written.
pub proof fn output_items_are_read_back(item: OutputItemView)
    requires
        is_told_apart(item),
    ensures
        <OutputItem as FromJson>::of_json(<OutputItem as ToJson>::json_of(item)) == Some(item),
{
    item_kinds_differ();
    item_keys_differ();
    match item {
        OutputItemView::Message(x) => {
            statuses_are_read_back(
                x.status,
                ToolSearchStatus::Completed,
                McpCallStatus::Completed,
                WebSearchCallStatus::Completed,
                GatewayCallStatus::Completed,
                ToolSearchExecution::Client,
            );
            assert forall|i: int| 0 <= i < x.content.len() implies <OutputTextContent as FromJson>::of_json(
                <OutputTextContent as ToJson>::json_of(#[trigger] x.content[i]),
            ) == Some(x.content[i]) by {}
            lists_are_read_back::<OutputTextContent>(x.content, x.content.len() as int);
            assert(x.content.take(x.content.len() as int) =~= x.content);
        },
        OutputItemView::Reasoning(x) => {
            if let Some(status) = x.status {
                statuses_are_read_back(
                    status,
                    ToolSearchStatus::Completed,
                    McpCallStatus::Completed,
                    WebSearchCallStatus::Completed,
                    GatewayCallStatus::Completed,
                    ToolSearchExecution::Client,
                );
            }
            assert forall|i: int| 0 <= i < x.content.len() implies <ReasoningTextContent as FromJson>::of_json(
                <ReasoningTextContent as ToJson>::json_of(#[trigger] x.content[i]),
            ) == Some(x.content[i]) by {}
            lists_are_read_back::<ReasoningTextContent>(x.content, x.content.len() as int);
            assert(x.content.take(x.content.len() as int) =~= x.content);
        },
        OutputItemView::FunctionCall(x) => {
            statuses_are_read_back(
                x.status,
                ToolSearchStatus::Completed,
                McpCallStatus::Completed,
                WebSearchCallStatus::Completed,
                GatewayCallStatus::Completed,
                ToolSearchExecution::Client,
            );
        },
        OutputItemView::CustomToolCall(x) => {
            if let Some(status) = x.status {
                statuses_are_read_back(
                    status,
                    ToolSearchStatus::Completed,
                    McpCallStatus::Completed,
                    WebSearchCallStatus::Completed,
                    GatewayCallStatus::Completed,
                    ToolSearchExecution::Client,
                );
            }
        },
        OutputItemView::WebSearchCall(x) => {
            statuses_are_read_back(
                MessageStatus::Completed,
                ToolSearchStatus::Completed,
                McpCallStatus::Completed,
                x.status,
                GatewayCallStatus::Completed,
                ToolSearchExecution::Client,
            );
        },
        OutputItemView::McpCall(x) => {
            if let Some(status) = x.status {
                statuses_are_read_back(
                    MessageStatus::Completed,
                    ToolSearchStatus::Completed,
                    status,
                    WebSearchCallStatus::Completed,
                    GatewayCallStatus::Completed,
                    ToolSearchExecution::Client,
                );
            }
        },
        OutputItemView::McpListTools(x) => {
            assert forall|i: int| 0 <= i < x.tools.len() implies <McpTool as FromJson>::of_json(
                <McpTool as ToJson>::json_of(#[trigger] x.tools[i]),
            ) == Some(x.tools[i]) by {
                assert(says_annotations(x.tools[i]));
                listed_tools_are_read_back(x.tools[i]);
            }
            lists_are_read_back::<McpTool>(x.tools, x.tools.len() as int);
            assert(x.tools.take(x.tools.len() as int) =~= x.tools);
        },
        OutputItemView::ToolSearchCall(x) => {
            statuses_are_read_back(
                MessageStatus::Completed,
                x.status,
                McpCallStatus::Completed,
                WebSearchCallStatus::Completed,
                GatewayCallStatus::Completed,
                x.execution,
            );
        },
        _ => {},
    }
}

/// A number that tells apart the names that are written here.
#[verifier::opaque]
spec fn mark(name: Seq<char>) -> int {
    1000 * name.len() + name[0] as int + 3 * (name.last() as int)
}

/// The names of statuses are told apart.
proof fn status_names_differ()
    ensures
        mark("in_progress"@) == 11450,
        mark("completed"@) == 9399,
        mark("incomplete"@) == 10408,
        mark("failed"@) == 6402,
        mark("calling"@) == 7408,
        mark("searching"@) == 9424,
        mark("client"@) == 6447,
        mark("server"@) == 6457,
{
    reveal(mark);
    reveal_strlit("in_progress");
    reveal_strlit("completed");
    reveal_strlit("incomplete");
    reveal_strlit("failed");
    reveal_strlit("calling");
    reveal_strlit("searching");
    reveal_strlit("client");
    reveal_strlit("server");
}

/// The names of events are told apart.
proof fn event_names_differ()
    ensures
        mark("response.created"@) == 16414,
        mark("response.in_progress"@) == 20459,
        mark("response.completed"@) == 18414,
        mark("response.failed"@) == 15414,
        mark("response.incomplete"@) == 19417,
        mark("response.output_item.added"@) == 26414,
        mark("response.output_item.done"@) == 25417,
        mark("response.content_part.added"@) == 27414,
        mark("response.content_part.done"@) == 26417,
        mark("response.output_text.delta"@) == 26405,
        mark("response.output_text.done"@) == 25417,
        mark("response.reasoning_text.delta"@) == 29405,
        mark("response.reasoning_text.done"@) == 28417,
        mark("response.function_call_arguments.delta"@) == 38405,
        mark("response.function_call_arguments.done"@) == 37417,
        mark("response.custom_tool_call_input.delta"@) == 37405,
        mark("response.custom_tool_call_input.done"@) == 36417,
        "response.output_item.done"@ != "response.output_text.done"@,
{
    reveal(mark);
    reveal_strlit("response.created");
    reveal_strlit("response.in_progress");
    reveal_strlit("response.completed");
    reveal_strlit("response.failed");
    reveal_strlit("response.incomplete");
    reveal_strlit("response.output_item.added");
    reveal_strlit("response.output_item.done");
    reveal_strlit("response.content_part.added");
    reveal_strlit("response.content_part.done");
    reveal_strlit("response.output_text.delta");
    reveal_strlit("response.output_text.done");
    reveal_strlit("response.reasoning_text.delta");
    reveal_strlit("response.reasoning_text.done");
    reveal_strlit("response.function_call_arguments.delta");
    reveal_strlit("response.function_call_arguments.done");
    reveal_strlit("response.custom_tool_call_input.delta");
    reveal_strlit("response.custom_tool_call_input.done");
    assert("response.output_item.done"@[16] == 'i');
    assert("response.output_text.done"@[16] == 't');
}

/// The names of the fields of listed tools are told apart.
proof fn tool_keys_differ()
    ensures
        mark("name"@) == 4413,
        mark("description"@) == 11430,
        mark("input_schema"@) == 12396,
        mark("inputSchema"@) == 11396,
        mark("annotations"@) == 11442,
        mark("server_label"@) == 12439,
        mark("tool_name"@) == 9419,
        mark("internal_name"@) == 13408,
        mark("tool"@) == 4440,
{
    reveal(mark);
    reveal_strlit("name");
    reveal_strlit("description");
    reveal_strlit("input_schema");
    reveal_strlit("inputSchema");
    reveal_strlit("annotations");
    reveal_strlit("server_label");
    reveal_strlit("tool_name");
    reveal_strlit("internal_name");
    reveal_strlit("tool");
}

/// The names of the kinds of output items are told apart.
proof fn item_kinds_differ()
    ensures
        mark("message"@) == 7412,
        mark("reasoning"@) == 9423,
        mark("function_call"@) == 13426,
        mark("custom_tool_call"@) == 16423,
        mark("web_search_call"@) == 15443,
        mark("mcp_call"@) == 8433,
        mark("mcp_list_tools"@) == 14454,
        mark("tool_search_call"@) == 16440,
        mark("compaction"@) == 10429,
{
    reveal(mark);
    reveal_strlit("message");
    reveal_strlit("reasoning");
    reveal_strlit("function_call");
    reveal_strlit("custom_tool_call");
    reveal_strlit("web_search_call");
    reveal_strlit("mcp_call");
    reveal_strlit("mcp_list_tools");
    reveal_strlit("tool_search_call");
    reveal_strlit("compaction");
}

/// The names of the fields of output items are told apart.
proof fn item_keys_differ()
    ensures
        mark("type"@) == 4419,
        mark("id"@) == 2405,
        mark("role"@) == 4417,
        mark("status"@) == 6460,
        mark("content"@) == 7447,
        mark("summary"@) == 7478,
        mark("encrypted_content"@) == 17449,
        mark("call_id"@) == 7399,
        mark("name"@) == 4413,
        mark("namespace"@) == 9413,
        mark("arguments"@) == 9442,
        mark("input"@) == 5453,
        mark("action"@) == 6427,
        mark("server_label"@) == 12439,
        mark("approval_request_id"@) == 19397,
        mark("output"@) == 6459,
        mark("error"@) == 5443,
        mark("tools"@) == 5461,
        mark("execution"@) == 9431,
        mark("text"@) == 4464,
        mark("annotations"@) == 11442,
{
    reveal(mark);
    reveal_strlit("type");
    reveal_strlit("id");
    reveal_strlit("role");
    reveal_strlit("status");
    reveal_strlit("content");
    reveal_strlit("summary");
    reveal_strlit("encrypted_content");
    reveal_strlit("call_id");
    reveal_strlit("name");
    reveal_strlit("namespace");
    reveal_strlit("arguments");
    reveal_strlit("input");
    reveal_strlit("action");
    reveal_strlit("server_label");
    reveal_strlit("approval_request_id");
    reveal_strlit("output");
    reveal_strlit("error");
    reveal_strlit("tools");
    reveal_strlit("execution");
    reveal_strlit("text");
    reveal_strlit("annotations");
}

} // verus!
