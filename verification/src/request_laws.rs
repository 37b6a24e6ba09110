//! What a request must be: which of them use tool search, which are refused, and what is left
//! to answer.
use vstd::prelude::*;

#[allow(unused_imports)]
use crate::error::ToolErrorView;
#[allow(unused_imports)]
use crate::executors::GatewayHandlerView;
#[allow(unused_imports)]
use crate::items::{InputItemView, ResponsesInputView};
#[allow(unused_imports)]
use crate::json::JsonView;
#[allow(unused_imports)]
use crate::ownership::ToolOwnershipView;
#[allow(unused_imports)]
use crate::payload::RequestPayloadView;
#[allow(unused_imports)]
use crate::pending_calls::PendingCallView;
#[allow(unused_imports)]
use crate::readiness::ToolSearchReadiness;
#[allow(unused_imports)]
use crate::registry::ToolEntryView;
#[allow(unused_imports)]
use crate::request::RequestContextView;
#[allow(unused_imports)]
use crate::search::ToolSearchStateView;
#[allow(unused_imports)]
use crate::tools::{
    CodexNamespaceMemberView, CodexNamespaceToolParamView, ResponsesToolView, ToolType,
};

verus! {

/// Whether a declaration declares a search or defers something.
pub open spec fn concerns_search(tool: ResponsesToolView) -> bool {
    match tool {
        ResponsesToolView::ToolSearch(_) => true,
        ResponsesToolView::Function(f) => f.defer_loading == Some(true),
        ResponsesToolView::Mcp(m) => m.defer_loading == Some(true),
        ResponsesToolView::Namespace(n) => exists|q: int|
            0 <= q < n.tools.len() && (#[trigger] n.tools[q]) is Function
                && n.tools[q]->Function_0.defer_loading == Some(true),
        _ => false,
    }
}

/// Whether a request uses tool search at all: it declares one, defers something, or has a
/// search in its history.
pub open spec fn uses_search(tools: Seq<ResponsesToolView>, input: ResponsesInputView) -> bool {
    ||| exists|i: int| 0 <= i < tools.len() && concerns_search(#[trigger] tools[i])
    ||| input is Items && exists|i: int|
        0 <= i < input->Items_0.len() && ((#[trigger] input->Items_0[i]) is ToolSearchCall
            || input->Items_0[i] is ToolSearchOutput)
}

proof fn concerns_is_activation(tool: ResponsesToolView)
    ensures
        crate::readiness::activates_tool_search(tool) == concerns_search(tool),
{
    if let ResponsesToolView::Namespace(n) = tool {
        if exists|q: int|
            0 <= q < n.tools.len() && (#[trigger] n.tools[q]) is Function
                && n.tools[q]->Function_0.defer_loading == Some(true) {
            let q = choose|q: int|
                0 <= q < n.tools.len() && (#[trigger] n.tools[q]) is Function
                    && n.tools[q]->Function_0.defer_loading == Some(true);
            assert(crate::readiness::defers_member(n.tools[q]));
        }
        if crate::readiness::activates_tool_search(tool) {
            let q = choose|q: int|
                0 <= q < n.tools.len() && #[trigger] crate::readiness::defers_member(n.tools[q]);
            assert(n.tools[q] is Function);
        }
    }
}

/// A request needs preparation only where it uses tool search, and every request that does not
/// use it is ready as it is.
pub proof fn only_searches_need_preparation(
    tools: Seq<ResponsesToolView>,
    input: ResponsesInputView,
    parallel: Option<bool>,
)
    ensures
        ({
            let ready = crate::readiness::readiness(tools, input, parallel);
            &&& !uses_search(tools, input) ==> ready == Ok::<ToolSearchReadiness, ToolErrorView>(
                ToolSearchReadiness::Inactive,
            )
            &&& uses_search(tools, input) && ready is Ok ==> ready->Ok_0
                is StatePreparationRequired
            &&& uses_search(tools, input) && parallel == Some(true) ==> ready is Err
            &&& ready is Err ==> ready->Err_0 is Config
        }),
{
    assert forall|i: int| 0 <= i < tools.len() implies crate::readiness::activates_tool_search(
        #[trigger] tools[i],
    ) == concerns_search(tools[i]) by {
        concerns_is_activation(tools[i]);
    }
    declarations_err_is_config(tools, 0);
    items_err_is_config(crate::readiness::input_items(input), 0);
    if let ResponsesInputView::Items(items) = input {
        if crate::readiness::has_search_item(items) {
            let i = choose|i: int|
                0 <= i < items.len() && crate::readiness::is_search_item(#[trigger] items[i]);
            assert(items[i] is ToolSearchCall || items[i] is ToolSearchOutput);
        }
        if exists|i: int|
            0 <= i < items.len() && ((#[trigger] items[i]) is ToolSearchCall || items[i]
                is ToolSearchOutput) {
            let i = choose|i: int|
                0 <= i < items.len() && ((#[trigger] items[i]) is ToolSearchCall || items[i]
                    is ToolSearchOutput);
            assert(crate::readiness::is_search_item(items[i]));
        }
    }
}

proof fn declarations_err_is_config(tools: Seq<ResponsesToolView>, i: int)
    requires
        0 <= i,
    ensures
        crate::readiness::declarations_validity(tools, i) is Err
            ==> crate::readiness::declarations_validity(tools, i)->Err_0 is Config,
    decreases tools.len() - i,
{
    if i < tools.len() {
        declarations_err_is_config(tools, i + 1);
    }
}

proof fn loaded_err_is_config(tools: Seq<ResponsesToolView>, i: int)
    requires
        0 <= i,
    ensures
        crate::readiness::loaded_tools_validity(tools, i) is Err
            ==> crate::readiness::loaded_tools_validity(tools, i)->Err_0 is Config,
    decreases tools.len() - i,
{
    if i < tools.len() {
        loaded_err_is_config(tools, i + 1);
    }
}

proof fn items_err_is_config(items: Seq<InputItemView>, i: int)
    requires
        0 <= i,
    ensures
        crate::readiness::items_validity(items, i) is Err ==> crate::readiness::items_validity(
            items,
            i,
        )->Err_0 is Config,
    decreases items.len() - i,
{
    if i < items.len() {
        items_err_is_config(items, i + 1);
        if let InputItemView::ToolSearchOutput(output) = items[i] {
            loaded_err_is_config(output.tools, 0);
        }
    }
}

/// Whether the members of a namespace are functions, and there is one.
pub open spec fn has_functions_only(n: CodexNamespaceToolParamView) -> bool {
    n.tools.len() > 0 && forall|q: int|
        0 <= q < n.tools.len() ==> (#[trigger] n.tools[q]) is Function
}

/// Whether a declaration may stand in a request that uses tool search: its name is not that of
/// the search, a namespace has functions and nothing else, and a custom tool's format leaves
/// its text free.
pub open spec fn may_be_declared(tool: ResponsesToolView) -> bool {
    match tool {
        ResponsesToolView::Function(f) => f.name != "tool_search"@,
        ResponsesToolView::Custom(c) => c.name != "tool_search"@ && (c.format is Some
            ==> c.format->0 is Object && crate::accumulator_laws::says(
            c.format->0->Object_0,
            "type"@,
            "text"@,
        )),
        ResponsesToolView::Namespace(n) => n.name != "tool_search"@ && has_functions_only(n),
        _ => true,
    }
}

proof fn validity_is_being_declarable(tool: ResponsesToolView)
    ensures
        crate::readiness::declaration_validity(tool) is Ok <==> may_be_declared(tool),
        tool is Function || tool is Mcp || tool is Namespace ==> (
        crate::readiness::loaded_validity(tool) is Ok <==> may_be_declared(tool)),
        !(tool is Function || tool is Mcp || tool is Namespace)
            ==> crate::readiness::loaded_validity(tool) is Err,
{
    if let ResponsesToolView::Namespace(n) = tool {
        if n.tools.len() > 0 && !has_functions_only(n) {
            let q = choose|q: int| 0 <= q < n.tools.len() && !((#[trigger] n.tools[q]) is Function);
            assert(n.tools[q] is Unknown);
        }
        if exists|q: int| 0 <= q < n.tools.len() && (#[trigger] n.tools[q]) is Unknown {
            let q = choose|q: int| 0 <= q < n.tools.len() && (#[trigger] n.tools[q]) is Unknown;
            assert(!(n.tools[q] is Function));
        }
    }
}

proof fn valid_declarations(tools: Seq<ResponsesToolView>, i: int)
    requires
        0 <= i,
    ensures
        crate::readiness::declarations_validity(tools, i) is Ok <==> forall|k: int|
            i <= k < tools.len() ==> may_be_declared(#[trigger] tools[k]),
    decreases tools.len() - i,
{
    if i < tools.len() {
        validity_is_being_declarable(tools[i]);
        valid_declarations(tools, i + 1);
    }
}

/// Whether what a search found may be loaded.
pub open spec fn may_be_loaded(tool: ResponsesToolView) -> bool {
    (tool is Function || tool is Mcp || tool is Namespace) && may_be_declared(tool)
}

proof fn valid_loaded(tools: Seq<ResponsesToolView>, i: int)
    requires
        0 <= i,
    ensures
        crate::readiness::loaded_tools_validity(tools, i) is Ok <==> forall|k: int|
            i <= k < tools.len() ==> may_be_loaded(#[trigger] tools[k]),
    decreases tools.len() - i,
{
    if i < tools.len() {
        validity_is_being_declarable(tools[i]);
        valid_loaded(tools, i + 1);
    }
}

/// Whether an item of a history may stand in a request that uses tool search: searches and
/// answers name their calls, and what an answer holds can be loaded.
pub open spec fn may_be_said(item: InputItemView) -> bool {
    match item {
        InputItemView::ToolSearchCall(call) => !crate::text::blank(call.id)
            && !crate::text::blank(call.call_id),
        InputItemView::ToolSearchOutput(output) => !crate::text::blank(output.call_id) && forall|
            k: int,
        |
            0 <= k < output.tools.len() ==> may_be_loaded(#[trigger] output.tools[k]),
        _ => true,
    }
}

proof fn valid_items(items: Seq<InputItemView>, i: int)
    requires
        0 <= i,
    ensures
        crate::readiness::items_validity(items, i) is Ok <==> forall|k: int|
            i <= k < items.len() ==> may_be_said(#[trigger] items[k]),
    decreases items.len() - i,
{
    if i < items.len() {
        if let InputItemView::ToolSearchOutput(output) = items[i] {
            valid_loaded(output.tools, 0);
        }
        valid_items(items, i + 1);
    }
}

proof fn search_declarations_grow(tools: Seq<ResponsesToolView>, n: int, i: int, j: int)
    requires
        0 <= n <= tools.len(),
    ensures
        0 <= i < n && tools[i] is ToolSearch ==> crate::readiness::search_declarations(tools, n)
            >= 1,
        0 <= i < j < n && tools[i] is ToolSearch && tools[j] is ToolSearch
            ==> crate::readiness::search_declarations(tools, n) >= 2,
    decreases n,
{
    if n > 0 {
        search_declarations_grow(tools, n - 1, i, j);
    }
}

proof fn few_search_declarations(tools: Seq<ResponsesToolView>, n: int)
    requires
        0 <= n <= tools.len(),
        forall|i: int, j: int|
            0 <= i < j < n && (#[trigger] tools[i]) is ToolSearch ==> !((#[trigger] tools[j])
                is ToolSearch),
    ensures
        crate::readiness::search_declarations(tools, n) <= 1,
        (forall|i: int| 0 <= i < n ==> !((#[trigger] tools[i]) is ToolSearch))
            ==> crate::readiness::search_declarations(tools, n) == 0,
    decreases n,
{
    if n > 0 {
        few_search_declarations(tools, n - 1);
        if tools[n - 1] is ToolSearch {
            assert forall|i: int| 0 <= i < n - 1 implies !((#[trigger] tools[i]) is ToolSearch) by {
                if tools[i] is ToolSearch {
                    assert(!(tools[n - 1] is ToolSearch));
                }
            }
        }
    }
}

/// A request that uses tool search is accepted exactly where it declares at most one search,
/// does not ask for parallel calls, and everything that it declares and says may stand in it.
pub proof fn searches_are_accepted_where_they_can_be_run(
    tools: Seq<ResponsesToolView>,
    input: ResponsesInputView,
    parallel: Option<bool>,
)
    requires
        crate::readiness::search_active(tools, input),
    ensures
        crate::readiness::readiness(tools, input, parallel) is Ok <==> {
            &&& parallel != Some(true)
            &&& forall|i: int, j: int|
                0 <= i < j < tools.len() && (#[trigger] tools[i]) is ToolSearch ==> !((
                #[trigger] tools[j]) is ToolSearch)
            &&& forall|k: int| 0 <= k < tools.len() ==> may_be_declared(#[trigger] tools[k])
            &&& input is Items ==> forall|k: int|
                0 <= k < input->Items_0.len() ==> may_be_said(#[trigger] input->Items_0[k])
        },
{
    valid_declarations(tools, 0);
    valid_items(crate::readiness::input_items(input), 0);
    if forall|i: int, j: int|
        0 <= i < j < tools.len() && (#[trigger] tools[i]) is ToolSearch ==> !((#[trigger] tools[j])
            is ToolSearch) {
        few_search_declarations(tools, tools.len() as int);
    } else {
        let (i, j) = choose|i: int, j: int|
            0 <= i < j < tools.len() && (#[trigger] tools[i]) is ToolSearch && (#[trigger] tools[j])
                is ToolSearch;
        search_declarations_grow(tools, tools.len() as int, i, j);
    }
}

/// Whether an item of a history is a call under an id.
pub open spec fn calls(item: InputItemView, call_id: Seq<char>) -> bool {
    (item is FunctionCall && item->FunctionCall_0.call_id == call_id) || (item is CustomToolCall
        && item->CustomToolCall_0.call_id == call_id)
}

/// Whether an item of a history is the output of a call.
pub open spec fn answers(item: InputItemView, call_id: Seq<char>) -> bool {
    (item is FunctionCallOutput && item->FunctionCallOutput_0.call_id == call_id) || (item
        is CustomToolCallOutput && item->CustomToolCallOutput_0.call_id == call_id)
}

/// A call, of a function or of a custom tool, is pending exactly where no output of it follows.
pub proof fn calls_without_outputs_are_pending(items: Seq<InputItemView>, call_id: Seq<char>)
    ensures
        crate::pending_calls::pending(items, items.len() as int).contains(
            (PendingCallView { call_id }),
        ) <==> exists|i: int|
            0 <= i < items.len() && calls(#[trigger] items[i], call_id) && forall|j: int|
                i < j < items.len() ==> !answers(#[trigger] items[j], call_id),
{
    crate::pending_calls::pending_calls_are_unanswered(items, call_id);
    let n = items.len() as int;
    if exists|i: int|
        0 <= i < n && crate::pending_calls::call_of(items[i]) == Some(call_id)
            && #[trigger] crate::pending_calls::unanswered(items, i, n) {
        let i = choose|i: int|
            0 <= i < n && crate::pending_calls::call_of(items[i]) == Some(call_id)
                && #[trigger] crate::pending_calls::unanswered(items, i, n);
        assert(calls(items[i], call_id));
        assert forall|j: int| i < j < n implies !answers(#[trigger] items[j], call_id) by {
            assert(crate::pending_calls::answer_of(items[j]) != Some(call_id));
        }
    }
    if exists|i: int|
        0 <= i < items.len() && calls(#[trigger] items[i], call_id) && forall|j: int|
            i < j < items.len() ==> !answers(#[trigger] items[j], call_id) {
        let i = choose|i: int|
            0 <= i < items.len() && calls(#[trigger] items[i], call_id) && forall|j: int|
                i < j < items.len() ==> !answers(#[trigger] items[j], call_id);
        assert forall|j: int| i < j < n implies crate::pending_calls::answer_of(
            #[trigger] items[j],
        ) != crate::pending_calls::call_of(items[i]) by {
            assert(!answers(items[j], call_id));
        }
        assert(crate::pending_calls::unanswered(items, i, n));
    }
}

/// The gateway owns the tools of servers and its own tools, with what runs them; all others are
/// the client's. Web searches may overlap, and calls of one server's tool may not.
pub proof fn tools_have_owners(entry: ToolEntryView)
    ensures
        ({
            let owner = crate::ownership::ownership_of(entry);
            let gateway = entry.tool_type is Mcp || entry.tool_type is WebSearch
                || entry.tool_type is FileSearch || entry.tool_type is CodeInterpreter;
            &&& owner is Gateway <==> gateway
            &&& owner is Client <==> !gateway
            &&& gateway && entry.handler is None ==> owner->Gateway_0 is None
            &&& gateway && entry.handler is Some ==> {
                &&& owner->Gateway_0 is Some
                &&& owner->Gateway_0->0.handler == entry.handler->0
                &&& entry.handler->0 is WebSearch ==> !owner->Gateway_0->0.self_exclusion
                &&& entry.handler->0 is Mcp ==> owner->Gateway_0->0.self_exclusion
            }
        }),
{
}

/// A request whose search was prepared goes to the model with the tools and the input that the
/// search leaves it, and is the client's own in everything else; a request that uses no search,
/// or that is refused, has no other form.
pub proof fn prepared_requests_change_in_tools_and_input(ctx: RequestContextView)
    ensures
        ({
            let (after, outcome) = crate::request::prepared(ctx);
            let state = after.tool_search_state;
            let private = after.tool_search_private_request->0;
            let request = ctx.enriched_request;
            &&& outcome is Err ==> after == ctx
            &&& after.original_request == ctx.original_request && after.enriched_request
                == ctx.enriched_request && after.ids == ctx.ids
            &&& outcome is Ok ==> state is Some
            &&& outcome is Ok && !state->0.active ==> after.tool_search_private_request
                == ctx.tool_search_private_request
            &&& outcome is Ok && state->0.active ==> {
                &&& after.tool_search_private_request is Some
                &&& private.tools == state->0.private_upstream_tools
                &&& state->0.private_upstream_input is Some ==> private.input
                    == state->0.private_upstream_input->0
                &&& private.model == request.model && private.instructions
                    == request.instructions && private.tool_choice == request.tool_choice
                &&& private.previous_response_id == request.previous_response_id
                    && private.conversation_id == request.conversation_id
                &&& private.stream == request.stream && private.store == request.store
                &&& private.temperature == request.temperature && private.top_p == request.top_p
                    && private.max_output_tokens == request.max_output_tokens
                &&& private.parallel_tool_calls == request.parallel_tool_calls
                    && private.metadata == request.metadata && private.truncation
                    == request.truncation
                &&& private.include_fields == request.include_fields && private.cache_salt
                    == request.cache_salt && private.context_management
                    == request.context_management
            }
        }),
{
}

/// A response is kept where the request asks for it or continues something, and not otherwise.
pub proof fn continued_requests_are_kept(ctx: RequestContextView)
    ensures
        ctx.original_request.store ==> crate::request::is_kept(ctx),
        ctx.original_request.previous_response_id is Some ==> crate::request::is_kept(ctx),
        ctx.ids.conversation_id is Some ==> crate::request::is_kept(ctx),
        !ctx.original_request.store && ctx.original_request.previous_response_id is None
            && ctx.ids.conversation_id is None ==> !crate::request::is_kept(ctx),
{
}

/// A member is known by its namespace and its name where both fit; a longer name is cut, and
/// ends in sixteen hexadecimal digits.
pub proof fn members_are_named_after_their_namespace(namespace: Seq<char>, member: Seq<char>)
    ensures
        ({
            let name = crate::names::member_name(namespace, member);
            let full = "agentic_ns__"@ + namespace + "__"@ + member;
            &&& namespace.len() + member.len() <= 50 ==> name == full
            &&& namespace.len() + member.len() > 50 ==> name.len() == 64 && name.take(46)
                == full.take(46)
        }),
{
    reveal_strlit("agentic_ns__");
    reveal_strlit("__");
    assert("agentic_ns__"@.len() == 12);
    assert("__"@.len() == 2);
    let full = crate::names::full_member_name(namespace, member);
    let hash = crate::text::fnv1a(vstd::utf8::encode_utf8(full)) as nat;
    crate::text::hex_text_length(hash, 16);
    if full.len() > 64 {
        assert((full.take(46) + "__"@ + crate::text::hex_text(hash, 16)).take(46) =~= full.take(
            46,
        ));
    }
}

} // verus!
