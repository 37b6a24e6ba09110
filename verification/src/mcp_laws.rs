//! What tools of MCP servers give: the outputs of their answers, which of them are handed out,
//! and what is asked of which server.
use vstd::prelude::*;

#[allow(unused_imports)]
use crate::error::ToolErrorView;
#[allow(unused_imports)]
use crate::items::{FunctionToolCallView, GatewayCallStatus, OutputItemView};
#[allow(unused_imports)]
use crate::json::JsonView;
#[allow(unused_imports)]
use crate::mcp::{McpCallResultView, McpDiscoveredHandlerView, McpHandlerView};
#[allow(unused_imports)]
use crate::tools::{
    McpDiscoveredToolParam, McpDiscoveredToolParamView, McpToolView, ResponsesToolView,
};
#[allow(unused_imports)]
use crate::wire::ToJson;

verus! {

/// The text of a content item that is a text.
pub open spec fn said(item: JsonView) -> Option<Seq<char>> {
    match item {
        JsonView::Object(fields) => if fields.contains_key("type"@) && fields["type"@]
            == JsonView::Text("text"@) && fields.contains_key("text"@) {
            match fields["text"@] {
                JsonView::Text(text) => Some(text),
                _ => None,
            }
        } else {
            None
        },
        _ => None,
    }
}

/// How many of the first `n` content items are texts.
pub open spec fn texts_among(content: Seq<JsonView>, n: int) -> int
    decreases n,
{
    if n <= 0 {
        0
    } else if said(content[n - 1]) is Some {
        texts_among(content, n - 1) + 1
    } else {
        texts_among(content, n - 1)
    }
}

/// Every text of an answer is collected, in its order, and nothing else.
pub proof fn all_texts_are_collected(content: Seq<JsonView>, n: int)
    requires
        0 <= n <= content.len(),
    ensures
        crate::mcp::content_texts(content, n).len() == texts_among(content, n),
        forall|i: int|
            0 <= i < n && said(#[trigger] content[i]) is Some ==> 0 <= texts_among(content, i)
                < crate::mcp::content_texts(content, n).len() && crate::mcp::content_texts(
                content,
                n,
            )[texts_among(content, i)] == said(content[i])->0,
    decreases n,
{
    if n > 0 {
        all_texts_are_collected(content, n - 1);
        let before = crate::mcp::content_texts(content, n - 1);
        let after = crate::mcp::content_texts(content, n);
        assert forall|i: int| 0 <= i < n && said(#[trigger] content[i]) is Some implies 0
            <= texts_among(content, i) < after.len() && after[texts_among(content, i)]
            == said(content[i])->0 by {
            if i < n - 1 {
                assert(after[texts_among(content, i)] == before[texts_among(content, i)]);
            }
        }
    }
}

proof fn same_texts(a: Seq<JsonView>, b: Seq<JsonView>, n: int)
    requires
        0 <= n <= a.len(),
        n <= b.len(),
        forall|i: int| 0 <= i < n ==> a[i] == b[i],
    ensures
        crate::mcp::content_texts(a, n) == crate::mcp::content_texts(b, n),
    decreases n,
{
    if n > 0 {
        same_texts(a, b, n - 1);
    }
}

/// The text that an answer says: all its texts, a line each.
pub open spec fn whole_text(content: Seq<JsonView>) -> Seq<char> {
    crate::text::join_text(crate::mcp::content_texts(content, content.len() as int), "\n"@)
}

/// One more text makes one more line; what is no text changes nothing.
pub proof fn texts_are_joined_line_by_line(content: Seq<JsonView>, item: JsonView)
    ensures
        match said(item) {
            Some(text) => whole_text(content.push(item)) == if texts_among(
                content,
                content.len() as int,
            ) == 0 {
                text
            } else {
                whole_text(content) + "\n"@ + text
            },
            None => whole_text(content.push(item)) == whole_text(content),
        },
        whole_text(Seq::empty()).len() == 0,
{
    let more = content.push(item);
    same_texts(more, content, content.len() as int);
    all_texts_are_collected(content, content.len() as int);
    let before = crate::mcp::content_texts(content, content.len() as int);
    let after = crate::mcp::content_texts(more, more.len() as int);
    if let Some(text) = said(item) {
        assert(after == before.push(text));
        assert(after.drop_last() =~= before);
    } else {
        assert(after == before);
    }
}

/// The output of an answer is what its texts say; where they say nothing it is its structured
/// content, and where it has none its content. An answer that says it is an error is one, with
/// that output.
pub proof fn outputs_say_what_the_answer_says(result: McpCallResultView)
    ensures
        ({
            let output = if whole_text(result.content).len() > 0 {
                whole_text(result.content)
            } else if result.structured_content is Some {
                crate::json::json_text(result.structured_content->0)
            } else {
                result.content_text
            };
            if result.is_error == Some(true) {
                crate::mcp::result_text(result) == Err::<Seq<char>, _>(
                    ToolErrorView::Execution(output),
                )
            } else {
                crate::mcp::result_text(result) == Ok::<_, ToolErrorView>(output)
            }
        }),
{
}

/// Whether a request allows a tool: it says nothing of which it allows, or names it.
pub open spec fn allows(allowed: Option<Seq<Seq<char>>>, name: Seq<char>) -> bool {
    allowed matches Some(names) ==> exists|i: int|
        0 <= i < names.len() && #[trigger] names[i] == name
}

/// Whether a handler is for a listed tool of a server.
pub open spec fn handles(
    handler: McpDiscoveredHandlerView,
    server_label: Seq<char>,
    client: Seq<char>,
    tool: McpToolView,
) -> bool {
    &&& handler.param.tool == tool
    &&& handler.param.tool_name == tool.name
    &&& handler.param.server_label == server_label
    &&& handler.handler.client == Some(client)
}

/// Each tool that a server lists and the request allows gets a handler, unless no name is left
/// for it, and no other gets one; the handlers keep the order of the list.
pub proof fn allowed_tools_get_handlers(
    server_label: Seq<char>,
    client: Seq<char>,
    tools: Seq<McpToolView>,
    allowed: Option<Seq<Seq<char>>>,
    n: int,
)
    requires
        0 <= n <= tools.len(),
    ensures
        ({
            let handlers = crate::mcp::discovered(server_label, client, tools, allowed, n).1;
            &&& handlers.len() <= n
            &&& forall|i: int|
                0 <= i < n && allows(allowed, (#[trigger] tools[i]).name)
                    && crate::mcp::internal_name(
                    crate::mcp::discovered(server_label, client, tools, allowed, i).0,
                    server_label,
                    tools[i].name,
                ) is Some ==> exists|k: int|
                    0 <= k < handlers.len() && handles(
                        #[trigger] handlers[k],
                        server_label,
                        client,
                        tools[i],
                    )
            &&& forall|k: int|
                0 <= k < handlers.len() ==> exists|i: int|
                    0 <= i < n && allows(allowed, (#[trigger] tools[i]).name) && handles(
                        #[trigger] handlers[k],
                        server_label,
                        client,
                        tools[i],
                    )
        }),
        n > 0 ==> crate::mcp::discovered(
            server_label,
            client,
            tools,
            allowed,
            n - 1,
        ).1.is_prefix_of(crate::mcp::discovered(server_label, client, tools, allowed, n).1),
    decreases n,
{
    if n > 0 {
        allowed_tools_get_handlers(server_label, client, tools, allowed, n - 1);
        let before = crate::mcp::discovered(server_label, client, tools, allowed, n - 1).1;
        let after = crate::mcp::discovered(server_label, client, tools, allowed, n).1;
        let tool = tools[n - 1];
        if let Some(names) = allowed {
            if names.contains(tool.name) {
                let i = names.index_of(tool.name);
                assert(names[i] == tool.name);
            }
        }
        assert(crate::mcp::is_allowed(allowed, tool.name) == allows(allowed, tool.name));
        assert forall|i: int|
            0 <= i < n && allows(allowed, (#[trigger] tools[i]).name) && crate::mcp::internal_name(
                crate::mcp::discovered(server_label, client, tools, allowed, i).0,
                server_label,
                tools[i].name,
            ) is Some implies exists|k: int|
            0 <= k < after.len() && handles(
                #[trigger] after[k],
                server_label,
                client,
                tools[i],
            ) by {
            if i < n - 1 {
                let k = choose|k: int|
                    0 <= k < before.len() && handles(
                        #[trigger] before[k],
                        server_label,
                        client,
                        tools[i],
                    );
                assert(after[k] == before[k]);
            } else {
                assert(handles(after[after.len() - 1], server_label, client, tools[i]));
            }
        }
        assert forall|k: int| 0 <= k < after.len() implies exists|i: int|
            0 <= i < n && allows(allowed, (#[trigger] tools[i]).name) && handles(
                #[trigger] after[k],
                server_label,
                client,
                tools[i],
            ) by {
            if k < before.len() {
                assert(after[k] == before[k]);
                let i = choose|i: int|
                    0 <= i < n - 1 && allows(allowed, (#[trigger] tools[i]).name) && handles(
                        before[k],
                        server_label,
                        client,
                        tools[i],
                    );
                assert(handles(after[k], server_label, client, tools[i]));
            } else {
                assert(handles(after[k], server_label, client, tools[n - 1]));
            }
        }
    }
}

/// A call of a discovered tool asks the server that listed it for the tool of its own name, with
/// the arguments of the call.
pub proof fn calls_go_to_their_server(
    client: Seq<char>,
    param: McpDiscoveredToolParamView,
    reason: Seq<char>,
    arguments: Option<JsonView>,
)
    requires
        crate::wire_laws::says_annotations(param.tool),
    ensures
        crate::mcp::call_plan(
            McpHandlerView { client: Some(client) },
            <McpDiscoveredToolParam as ToJson>::json_of(param),
            reason,
            arguments,
        ) matches Ok(plan) && plan.client == client && plan.server_label == param.server_label
            && plan.tool_name == param.tool_name && plan.arguments == arguments,
        crate::mcp::call_plan(
            McpHandlerView { client: None },
            <McpDiscoveredToolParam as ToJson>::json_of(param),
            reason,
            arguments,
        ) is Err,
{
    crate::wire_laws::discovered_tools_are_read_back(param);
}

/// A call is shown with the server and the tool that it is of, and with its arguments. One that
/// was done shows its output and no error; one that failed its error and no output; one that runs
/// neither.
pub proof fn calls_are_shown_with_their_outcome(
    call: FunctionToolCallView,
    output: Seq<char>,
    parsed: Option<JsonView>,
    arguments: Option<JsonView>,
    status: GatewayCallStatus,
    param: McpDiscoveredToolParamView,
    fresh: Seq<char>,
)
    requires
        crate::wire_laws::says_annotations(param.tool),
    ensures
        crate::mcp::ended_item(
            call,
            output,
            parsed,
            arguments,
            status,
            <McpDiscoveredToolParam as ToJson>::json_of(param),
            fresh,
        ) matches OutputItemView::McpToolCall(item) && {
            &&& item.server == param.server_label
            &&& item.tool == param.tool_name
            &&& item.status == status
            &&& arguments matches Some(value) ==> item.arguments == value
            &&& arguments is None ==> item.arguments == JsonView::Object(Map::empty())
            &&& status is Completed ==> item.error is None && item.result == Some(
                match parsed {
                    Some(value) => value,
                    None => JsonView::Text(output),
                },
            )
            &&& status is Failed ==> item.result is None && item.error is Some
            &&& status is Failed && parsed is None ==> item.error == Some(output)
            &&& status is InProgress ==> item.result is None && item.error is None
        },
        crate::mcp::begun_item(
            call,
            arguments,
            <McpDiscoveredToolParam as ToJson>::json_of(param),
            fresh,
        ) matches OutputItemView::McpToolCall(item) && {
            &&& item.server == param.server_label
            &&& item.tool == param.tool_name
            &&& item.status is InProgress
            &&& item.result is None
            &&& item.error is None
            &&& arguments matches Some(value) ==> item.arguments == value
        },
{
    crate::wire_laws::discovered_tools_are_read_back(param);
}

/// A failed call shows the error that its output names, where that says anything.
pub proof fn failures_show_their_error(
    output: Seq<char>,
    fields: Map<Seq<char>, JsonView>,
    error: Seq<char>,
)
    requires
        fields.contains_key("error"@),
        fields["error"@] == JsonView::Text(error),
        !crate::text::blank(error),
    ensures
        crate::mcp::error_text(output, Some(JsonView::Object(fields))) == error,
        crate::mcp::error_text(output, None) == output,
        crate::mcp::error_text(output, Some(JsonView::Object(fields.remove("error"@)))) == output,
{
}

/// Whether two declarations are of one server.
pub open spec fn are_of_one_server(a: ResponsesToolView, b: ResponsesToolView) -> bool {
    match (a, b) {
        (ResponsesToolView::Mcp(x), ResponsesToolView::Mcp(y)) => crate::text::trim_text(
            x.server_label,
        ) == crate::text::trim_text(y.server_label),
        _ => false,
    }
}

proof fn labels_are_of_declarations(tools: Seq<ResponsesToolView>, label: Seq<char>, n: int)
    requires
        0 <= n <= tools.len(),
    ensures
        crate::mcp::server_labels(tools, n).contains(label) <==> exists|i: int|
            0 <= i < n && has_label(#[trigger] tools[i], label),
    decreases n,
{
    if n > 0 {
        labels_are_of_declarations(tools, label, n - 1);
        let before = crate::mcp::server_labels(tools, n - 1);
        let after = crate::mcp::server_labels(tools, n);
        if before.contains(label) {
            let k = before.index_of(label);
            assert(after[k] == label);
        }
        if has_label(tools[n - 1], label) {
            assert(after[after.len() - 1] == label);
        }
        if after.contains(label) {
            let k = after.index_of(label);
            if k < before.len() {
                assert(before[k] == label);
            } else {
                assert(has_label(tools[n - 1], label));
            }
        }
    }
}

/// Whether a declaration is of the server with a label.
pub open spec fn has_label(tool: ResponsesToolView, label: Seq<char>) -> bool {
    match tool {
        ResponsesToolView::Mcp(m) => crate::text::trim_text(m.server_label) == label,
        _ => false,
    }
}

/// Declarations are refused where, and only where, two of them are of one server.
pub proof fn servers_are_declared_once(tools: Seq<ResponsesToolView>, i: int)
    requires
        0 <= i <= tools.len(),
    ensures
        crate::mcp::labels_valid(tools, i) is Ok <==> forall|a: int, b: int|
            0 <= a < b < tools.len() && i <= b ==> !are_of_one_server(
                #[trigger] tools[a],
                #[trigger] tools[b],
            ),
    decreases tools.len() - i,
{
    if i < tools.len() {
        servers_are_declared_once(tools, i + 1);
        if let ResponsesToolView::Mcp(m) = tools[i] {
            let label = crate::text::trim_text(m.server_label);
            labels_are_of_declarations(tools, label, i);
            if crate::mcp::server_labels(tools, i).contains(label) {
                let a = choose|a: int| 0 <= a < i && has_label(#[trigger] tools[a], label);
                assert(are_of_one_server(tools[a], tools[i]));
            } else {
                assert forall|a: int| 0 <= a < i implies !are_of_one_server(
                    #[trigger] tools[a],
                    tools[i],
                ) by {
                    if are_of_one_server(tools[a], tools[i]) {
                        assert(has_label(tools[a], label));
                    }
                }
            }
        }
    }
}

/// A tool whose server and name need no change keeps them in its internal name, as long as that
/// is short enough and free.
pub proof fn plain_names_stay_readable(
    used: Map<Seq<char>, (Seq<char>, Seq<char>)>,
    server_label: Seq<char>,
    tool_name: Seq<char>,
)
    requires
        crate::mcp::is_name(server_label),
        crate::mcp::is_name(tool_name),
        server_label.len() + tool_name.len() <= 57,
        !used.contains_key("mcp__"@ + server_label + "__"@ + tool_name),
    ensures
        crate::mcp::internal_name(used, server_label, tool_name) == Some(
            "mcp__"@ + server_label + "__"@ + tool_name,
        ),
{
    reveal_strlit("mcp__");
    reveal_strlit("__");
    let plain = "mcp__"@ + server_label + "__"@ + tool_name;
    assert forall|i: int| 0 <= i < plain.len() implies crate::mcp::is_name_char(
        #[trigger] plain[i],
    ) by {
        if i < 5 {
            assert(plain[i] == "mcp__"@[i]);
        } else if i < 5 + server_label.len() {
            assert(plain[i] == server_label[i - 5]);
        } else if i < 7 + server_label.len() {
            assert(plain[i] == "__"@[i - 5 - server_label.len()]);
        } else {
            assert(plain[i] == tool_name[i - 7 - server_label.len()]);
        }
    }
    assert(crate::mcp::base_name(server_label, tool_name) =~= plain);
}

/// What a tool may do is said by one flag in a listing, which is set only where the tool says
/// that it changes nothing; all else that it says is listed as it is.
pub proof fn listed_tools_say_whether_they_change_anything(
    tool: McpToolView,
    hints: Map<Seq<char>, JsonView>,
)
    ensures
        ({
            let listed = crate::mcp::listed_tool(tool);
            &&& listed.name == tool.name && listed.description == tool.description
                && listed.input_schema == tool.input_schema
            &&& listed.annotations is Some && listed.annotations->0 is Object
                && listed.annotations->0->Object_0.contains_key("read_only"@)
            &&& tool.annotations == Some(JsonView::Object(hints)) ==> (
            listed.annotations->0->Object_0["read_only"@] == JsonView::Bool(true)
                <==> hints.contains_key("readOnlyHint"@) && hints["readOnlyHint"@]
                == JsonView::Bool(true))
            &&& tool.annotations is None ==> listed.annotations->0->Object_0["read_only"@]
                == JsonView::Bool(false)
        }),
{
}

/// A name that is made where the plain one is too long or taken ends in ten hexadecimal digits
/// and has no more characters than names may have.
pub proof fn made_names_fit(server_label: Seq<char>, tool_name: Seq<char>, attempt: nat)
    ensures
        ({
            let name = crate::mcp::hashed_name(server_label, tool_name, attempt);
            let base = crate::mcp::base_name(server_label, tool_name);
            &&& name.len() <= 64
            &&& base.len() <= 52 ==> name.take(base.len() as int) == base
            &&& base.len() > 52 ==> name.take(52) == base.take(52) && name.len() == 64
        }),
{
    reveal_strlit("__");
    assert("__"@.len() == 2);
    let base = crate::mcp::base_name(server_label, tool_name);
    let hash = crate::text::fnv1a(
        vstd::utf8::encode_utf8(crate::mcp::hash_input(server_label, tool_name, attempt)),
    ) as nat;
    crate::text::hex_text_length(hash % 0x100_0000_0000, 10);
    let name = crate::mcp::hashed_name(server_label, tool_name, attempt);
    let kept = if base.len() <= 52 {
        base
    } else {
        base.take(52)
    };
    assert(name.take(kept.len() as int) =~= kept);
}

/// A function of a server was called too early exactly where the history calls it at a place
/// before the one at which its server was loaded.
pub proof fn early_server_calls_are_seen(
    map: Map<Seq<char>, crate::mcp::McpToolRefView>,
    loads: Map<Seq<char>, usize>,
    calls: Map<Seq<char>, usize>,
    name: Seq<char>,
)
    requires
        map.contains_key(name),
    ensures
        calls.contains_key(name) && loads.contains_key(map[name].server_label) ==> (
        crate::mcp::called_too_early(map, loads, calls, name) <==> calls[name]
            < loads[map[name].server_label]),
        !calls.contains_key(name) || !loads.contains_key(map[name].server_label)
            ==> !crate::mcp::called_too_early(map, loads, calls, name),
{
}

/// A server's listing shows every tool that got a handler, in order and as the server told it,
/// under the server's label and a fresh identity. The listing of a server that failed shows no
/// tool, and what went wrong.
pub proof fn listings_show_every_tool(
    server_label: Seq<char>,
    handlers: Seq<McpDiscoveredHandlerView>,
    error: ToolErrorView,
    fresh: Seq<char>,
)
    ensures
        ({
            let set = crate::mcp::tool_set(server_label, handlers, fresh);
            let listing = set.list_tools_item;
            &&& set.discovered_handlers == handlers
            &&& listing.id == "mcpl_"@ + fresh
            &&& listing.server_label == server_label
            &&& listing.error is None
            &&& listing.tools.len() == handlers.len()
            &&& forall|i: int|
                0 <= i < handlers.len() ==> (#[trigger] listing.tools[i]).name
                    == handlers[i].param.tool.name && listing.tools[i].description
                    == handlers[i].param.tool.description && listing.tools[i].input_schema
                    == handlers[i].param.tool.input_schema
        }),
        ({
            let listing = crate::mcp::failed_listing(server_label, error, fresh);
            &&& listing.id == "mcpl_"@ + fresh
            &&& listing.server_label == server_label
            &&& listing.tools.len() == 0
            &&& listing.error == Some(crate::error::tool_error_text(error))
        }),
{
}

} // verus!
