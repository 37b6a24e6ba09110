//! Who runs what: which tool each declaration becomes, whose calls are whose, and what clients
//! see of an output.
use vstd::prelude::*;

#[allow(unused_imports)]
use crate::codex::NamespaceMemberView;
#[allow(unused_imports)]
use crate::error::ToolErrorView;
#[allow(unused_imports)]
use crate::executors::{
    GatewayExecutorRegistrationView, GatewayExecutorsView, GatewayHandlerView, HandlerListView,
    McpConnectionView,
};
#[allow(unused_imports)]
use crate::items::{FunctionToolCallView, MessageStatus, OutputItemView};
#[allow(unused_imports)]
use crate::json::JsonView;
#[allow(unused_imports)]
use crate::mcp::{McpDiscoveredHandlerView, McpToolRefView};
#[allow(unused_imports)]
use crate::registry::{BuildView, ToolEntryView, ToolRegistryView};
#[allow(unused_imports)]
use crate::search::ToolSearchStateView;
#[allow(unused_imports)]
use crate::tools::{
    CodexNamespaceMemberView, CodexNamespaceToolParamView, McpToolParamView, ResponsesToolView,
    ToolType,
};
#[allow(unused_imports)]
use crate::web_search::WebSearchHandlerView;

verus! {

/// Whether a tool is registered under a name as one of a type.
pub open spec fn is_registered(
    entries: Map<Seq<char>, ToolEntryView>,
    name: Seq<char>,
    tool_type: ToolType,
) -> bool {
    entries.contains_key(name) && entries[name].tool_type == tool_type
}

/// In a registry that was built, a function, a custom tool and each of the gateway's own tools
/// is found under its name as what it is. A web search is run by the gateway's handler, where
/// it has one; functions and custom tools are run by no one but the client.
pub proof fn declarations_become_tools(
    tools: Seq<ResponsesToolView>,
    executors: GatewayExecutorsView,
    fresh: Seq<Seq<char>>,
    registry: ToolRegistryView,
    i: int,
)
    requires
        crate::registry::registry_of(tools, executors, fresh).2 == Ok::<
            ToolRegistryView,
            ToolErrorView,
        >(registry),
        0 <= i < tools.len(),
    ensures
        tools[i] is Function ==> is_registered(
            registry.entries,
            tools[i]->Function_0.name,
            ToolType::Function,
        ) && registry.entries[tools[i]->Function_0.name].handler is None,
        tools[i] is Custom ==> is_registered(
            registry.entries,
            tools[i]->Custom_0.name,
            ToolType::Custom,
        ) && registry.entries[tools[i]->Custom_0.name].handler is None,
        tools[i] is WebSearch ==> is_registered(
            registry.entries,
            "web_search"@,
            ToolType::WebSearch,
        ),
        tools[i] is WebSearch && executors.web_search is Some
            ==> registry.entries["web_search"@].handler == Some(
            GatewayHandlerView::WebSearch(executors.web_search->0),
        ),
        tools[i] is WebSearch && executors.web_search is None
            ==> registry.entries["web_search"@].handler is None,
        tools[i] is FileSearch ==> is_registered(
            registry.entries,
            "file_search"@,
            ToolType::FileSearch,
        ),
        tools[i] is CodeInterpreter ==> is_registered(
            registry.entries,
            "code_interpreter"@,
            ToolType::CodeInterpreter,
        ),
        tools[i] is Namespace ==> forall|j: int|
            0 <= j < tools[i]->Namespace_0.tools.len() && (
            #[trigger] tools[i]->Namespace_0.tools[j]) is Function ==> is_member(
                registry.entries,
                tools[i]->Namespace_0.name,
                tools[i]->Namespace_0.tools[j]->Function_0.name,
            ),
        registry.withheld_function_names == Set::<Seq<char>>::empty(),
        !registry.tool_search_translation_enabled,
{
    crate::registry::declared_tools_are_registered(tools, executors, fresh, registry, i);
    let resolved = crate::codex::renamed_tools(tools);
    assert(resolved[i] == crate::codex::renamed_tool(tools[i]));
    if tools[i] is Namespace {
        let n = tools[i]->Namespace_0;
        let r = resolved[i]->Namespace_0;
        assert forall|j: int|
            0 <= j < n.tools.len() && (#[trigger] n.tools[j]) is Function implies is_member(
            registry.entries,
            n.name,
            n.tools[j]->Function_0.name,
        ) by {
            assert(r.tools[j] == crate::codex::renamed_member(n.name, n.tools[j]));
        }
    }
}

/// Whether a function of a namespace is registered, under its flat name and with its namespace.
pub open spec fn is_member(
    entries: Map<Seq<char>, ToolEntryView>,
    namespace: Seq<char>,
    name: Seq<char>,
) -> bool {
    let flat = crate::names::member_name(namespace, name);
    &&& is_registered(entries, flat, ToolType::CodexNamespace)
    &&& entries[flat].server_label == Some(namespace)
    &&& entries[flat].handler is None
}

/// Every tool that a server listed is registered under its internal name, is run by its own
/// handler, and is known to be that server's tool; what was registered before stays.
pub proof fn listed_tools_are_registered(
    entries: Map<Seq<char>, ToolEntryView>,
    map: Map<Seq<char>, McpToolRefView>,
    handlers: Seq<McpDiscoveredHandlerView>,
    n: int,
)
    requires
        0 <= n <= handlers.len(),
        crate::registry::with_listed(entries, map, handlers, n) is Ok,
    ensures
        ({
            let after = crate::registry::with_listed(entries, map, handlers, n)->Ok_0;
            &&& forall|i: int|
                0 <= i < n ==> is_listed(after.0, after.1, #[trigger] handlers[i])
            &&& forall|name: Seq<char>| #[trigger]
                entries.contains_key(name) ==> after.0.contains_key(name) && after.0[name]
                    == entries[name]
            &&& forall|i: int|
                0 <= i < n ==> !entries.contains_key(
                    (#[trigger] handlers[i]).param.internal_name,
                )
        }),
    decreases n,
{
    if n > 0 {
        listed_tools_are_registered(entries, map, handlers, n - 1);
        let before = crate::registry::with_listed(entries, map, handlers, n - 1)->Ok_0;
        let after = crate::registry::with_listed(entries, map, handlers, n)->Ok_0;
        let last = handlers[n - 1].param.internal_name;
        assert(!before.0.contains_key(last));
        assert forall|i: int| 0 <= i < n implies is_listed(
            after.0,
            after.1,
            #[trigger] handlers[i],
        ) by {
            if i < n - 1 {
                assert(is_listed(before.0, before.1, handlers[i]));
                assert(handlers[i].param.internal_name != last);
            }
        }
    }
}

/// Whether a tool that a server listed is registered as that.
pub open spec fn is_listed(
    entries: Map<Seq<char>, ToolEntryView>,
    map: Map<Seq<char>, McpToolRefView>,
    handler: McpDiscoveredHandlerView,
) -> bool {
    let name = handler.param.internal_name;
    &&& is_registered(entries, name, ToolType::Mcp)
    &&& entries[name].server_label == Some(handler.param.server_label)
    &&& entries[name].handler == Some(GatewayHandlerView::Mcp(handler.handler))
    &&& map.contains_key(name)
    &&& map[name].server_label == handler.param.server_label
    &&& map[name].tool_name == handler.param.tool_name
}

/// A name that is taken is refused, with an error that names it, and a free one is not.
pub proof fn taken_names_are_refused(
    entries: Map<Seq<char>, ToolEntryView>,
    name: Seq<char>,
    entry: ToolEntryView,
)
    ensures
        ({
            let after = crate::registry::with_entry(entries, name, entry);
            &&& after is Err <==> entries.contains_key(name)
            &&& after is Err ==> after->Err_0 is Config
            &&& after is Ok ==> after->Ok_0.contains_key(name) && after->Ok_0[name] == entry
            &&& after is Ok ==> forall|other: Seq<char>|
                other != name ==> (#[trigger] after->Ok_0.contains_key(other))
                    == entries.contains_key(other) && (entries.contains_key(other)
                    ==> after->Ok_0[other] == entries[other])
        }),
{
}

/// Once a request's tool search is known, the names that it withholds are withheld, and its own
/// function is a search and no longer an ordinary function; every other tool stays what it was.
pub proof fn searches_become_known(registry: ToolRegistryView, state: ToolSearchStateView)
    requires
        crate::registry::classified(registry, state).1 is Ok,
    ensures
        ({
            let after = crate::registry::classified(registry, state).0;
            &&& after.withheld_function_names == state.withheld_function_names
            &&& after.tool_search_translation_enabled == state.active
            &&& after.namespace_map == registry.namespace_map && after.custom_tool_map
                == registry.custom_tool_map && after.mcp_tool_map == registry.mcp_tool_map
                && after.mcp_list_tools_items == registry.mcp_list_tools_items
            &&& state.active && state.synthetic_function is Some ==> is_registered(
                after.entries,
                state.synthetic_function->0.name,
                ToolType::ToolSearch,
            )
            &&& forall|name: Seq<char>| #[trigger]
                after.entries.contains_key(name) == registry.entries.contains_key(name)
            &&& forall|name: Seq<char>|
                #![trigger after.entries[name]]
                registry.entries.contains_key(name) && !(state.active && state.synthetic_function
                    is Some && name == state.synthetic_function->0.name) ==> after.entries[name]
                    == registry.entries[name]
            &&& state.active ==> forall|name: Seq<char>| #[trigger]
                registry.entries.contains_key(name) ==> !state.withheld_function_names.contains(
                    name,
                )
        }),
{
}

/// The type of a tool is that of its entry, and nothing else has a type but an active search.
pub proof fn types_are_those_of_the_entries(registry: ToolRegistryView, name: Seq<char>)
    ensures
        ({
            let types = crate::registry::tool_types(registry);
            &&& registry.entries.contains_key(name) && name != "tool_search"@
                ==> types.contains_key(name) && types[name] == registry.entries[name].tool_type
            &&& !registry.entries.contains_key(name) && name != "tool_search"@
                ==> !types.contains_key(name)
            &&& registry.tool_search_translation_enabled ==> types.contains_key("tool_search"@)
                && types["tool_search"@] is ToolSearch
            &&& !registry.tool_search_translation_enabled ==> types.contains_key("tool_search"@)
                == registry.entries.contains_key("tool_search"@)
        }),
{
}

/// Whether a tool is one that the gateway runs and clients do not.
pub open spec fn is_the_gateways(registry: ToolRegistryView, name: Seq<char>) -> bool {
    is_registered(registry.entries, name, ToolType::Mcp) || is_registered(
        registry.entries,
        name,
        ToolType::WebSearch,
    ) || is_registered(registry.entries, name, ToolType::FileSearch) || is_registered(
        registry.entries,
        name,
        ToolType::CodeInterpreter,
    )
}

/// Whether a call is among others.
pub open spec fn is_in(calls: Seq<FunctionToolCallView>, call: FunctionToolCallView) -> bool {
    exists|k: int| 0 <= k < calls.len() && #[trigger] calls[k] == call
}

/// The gateway runs exactly the calls of tools of servers and of its own tools, and the client
/// all others; each call keeps its turn.
pub proof fn calls_go_to_their_owners(
    registry: ToolRegistryView,
    calls: Seq<FunctionToolCallView>,
    n: int,
)
    requires
        0 <= n <= calls.len(),
    ensures
        ({
            let gateway = crate::registry::owned_calls(registry, calls, true, n);
            let client = crate::registry::owned_calls(registry, calls, false, n);
            &&& gateway.len() + client.len() == n
            &&& forall|i: int|
                0 <= i < n && is_the_gateways(registry, (#[trigger] calls[i]).name) ==> is_in(
                    gateway,
                    calls[i],
                )
            &&& forall|i: int|
                0 <= i < n && !is_the_gateways(registry, (#[trigger] calls[i]).name) ==> is_in(
                    client,
                    calls[i],
                )
            &&& forall|k: int|
                0 <= k < gateway.len() ==> is_the_gateways(
                    registry,
                    (#[trigger] gateway[k]).name,
                )
            &&& forall|k: int|
                0 <= k < client.len() ==> !is_the_gateways(registry, (#[trigger] client[k]).name)
            &&& n > 0 ==> if is_the_gateways(registry, calls[n - 1].name) {
                gateway.len() > 0 && gateway.last() == calls[n - 1]
            } else {
                client.len() > 0 && client.last() == calls[n - 1]
            }
        }),
    decreases n,
{
    if n > 0 {
        calls_go_to_their_owners(registry, calls, n - 1);
        let g0 = crate::registry::owned_calls(registry, calls, true, n - 1);
        let c0 = crate::registry::owned_calls(registry, calls, false, n - 1);
        let gateway = crate::registry::owned_calls(registry, calls, true, n);
        let client = crate::registry::owned_calls(registry, calls, false, n);
        assert(is_the_gateways(registry, calls[n - 1].name) == crate::registry::gateway_owned_name(
            registry,
            calls[n - 1].name,
        ));
        assert forall|i: int|
            0 <= i < n && is_the_gateways(registry, (#[trigger] calls[i]).name) implies is_in(
            gateway,
            calls[i],
        ) by {
            if i < n - 1 {
                let k = choose|k: int| 0 <= k < g0.len() && #[trigger] g0[k] == calls[i];
                assert(gateway[k] == calls[i]);
            } else {
                assert(gateway[gateway.len() - 1] == calls[i]);
            }
        }
        assert forall|i: int|
            0 <= i < n && !is_the_gateways(registry, (#[trigger] calls[i]).name) implies is_in(
            client,
            calls[i],
        ) by {
            if i < n - 1 {
                let k = choose|k: int| 0 <= k < c0.len() && #[trigger] c0[k] == calls[i];
                assert(client[k] == calls[i]);
            } else {
                assert(client[client.len() - 1] == calls[i]);
            }
        }
        assert forall|k: int| 0 <= k < gateway.len() implies is_the_gateways(
            registry,
            (#[trigger] gateway[k]).name,
        ) by {
            if k < g0.len() {
                assert(gateway[k] == g0[k]);
            }
        }
        assert forall|k: int| 0 <= k < client.len() implies !is_the_gateways(
            registry,
            (#[trigger] client[k]).name,
        ) by {
            if k < c0.len() {
                assert(client[k] == c0[k]);
            }
        }
    }
}

/// A call is run by the handler of the tool that it names, with the tool's own declaration; a
/// call of a tool that has no handler, or of none, is not run.
pub proof fn calls_are_run_by_their_handlers(registry: ToolRegistryView, call: FunctionToolCallView)
    ensures
        ({
            let dispatch = crate::registry::dispatch_of(registry, call);
            &&& dispatch is Some <==> registry.entries.contains_key(call.name)
                && registry.entries[call.name].handler is Some
            &&& dispatch is Some ==> dispatch->0.handler
                == registry.entries[call.name].handler->0 && dispatch->0.tool_type
                == registry.entries[call.name].tool_type && dispatch->0.config
                == registry.entries[call.name].config
        }),
{
}

/// Whether the items of an output are no calls that must not pass, and each has an identity of
/// its own or none.
pub open spec fn may_pass(
    withheld: Set<Seq<char>>,
    items: Seq<OutputItemView>,
    n: int,
) -> bool {
    &&& forall|i: int|
        0 <= i < n && (#[trigger] items[i]) is FunctionCall ==> !withheld.contains(
            items[i]->FunctionCall_0.name,
        ) && items[i]->FunctionCall_0.name != "tool_search"@
    &&& forall|i: int, j: int|
        0 <= i < j < n ==> crate::registry::shown_id(#[trigger] items[i]).len() == 0
            || crate::registry::shown_id(items[i]) != crate::registry::shown_id(#[trigger] items[j])
}

proof fn passing_items_are_kept(withheld: Set<Seq<char>>, items: Seq<OutputItemView>, n: int)
    requires
        0 <= n <= items.len(),
        may_pass(withheld, items, n),
    ensures
        ({
            let scan = crate::registry::output_items(withheld, items, n);
            &&& scan is Ok
            &&& scan->Ok_0.items == items.take(n)
            &&& forall|id: Seq<char>| #[trigger]
                scan->Ok_0.ids.contains(id) ==> id.len() > 0 && exists|i: int|
                    0 <= i < n && crate::registry::shown_id(#[trigger] items[i]) == id
        }),
    decreases n,
{
    if n > 0 {
        passing_items_are_kept(withheld, items, n - 1);
        let before = crate::registry::output_items(withheld, items, n - 1)->Ok_0;
        let id = crate::registry::shown_id(items[n - 1]);
        if id.len() > 0 && before.ids.contains(id) {
            let i = choose|i: int|
                0 <= i < n - 1 && crate::registry::shown_id(#[trigger] items[i]) == id;
            assert(crate::registry::shown_id(items[i]) != crate::registry::shown_id(items[n - 1]));
        }
        assert(items.take(n) =~= items.take(n - 1).push(items[n - 1]));
    } else {
        assert(items.take(0) =~= Seq::empty());
    }
}

/// An output without searches or withheld calls reaches clients whole and in its order; only
/// calls of namespace members change, and they only in their names.
pub proof fn outputs_pass_whole(registry: ToolRegistryView, output: Seq<OutputItemView>)
    requires
        may_pass(registry.withheld_function_names, output, output.len() as int)
            || !registry.tool_search_translation_enabled,
    ensures
        ({
            let (shown, outcome) = crate::registry::restored_output(registry, output);
            &&& outcome is Ok
            &&& shown.len() == output.len()
            &&& registry.namespace_map is None ==> shown == output
            &&& forall|i: int|
                0 <= i < output.len() && !((#[trigger] output[i]) is FunctionCall) ==> shown[i]
                    == output[i]
            &&& forall|i: int|
                0 <= i < output.len() && (#[trigger] output[i]) is FunctionCall
                    ==> is_same_call(shown[i], output[i]->FunctionCall_0)
            &&& registry.namespace_map is Some ==> forall|i: int|
                0 <= i < output.len() && (#[trigger] output[i]) is FunctionCall
                    && output[i]->FunctionCall_0.namespace is None
                    && registry.namespace_map->0.contains_key(output[i]->FunctionCall_0.name)
                    ==> is_members_call(
                    shown[i],
                    registry.namespace_map->0[output[i]->FunctionCall_0.name],
                )
            &&& registry.namespace_map is Some ==> forall|i: int|
                0 <= i < output.len() && (#[trigger] output[i]) is FunctionCall
                    && !registry.namespace_map->0.contains_key(output[i]->FunctionCall_0.name)
                    ==> shown[i] == output[i]
        }),
{
    if registry.tool_search_translation_enabled {
        passing_items_are_kept(registry.withheld_function_names, output, output.len() as int);
        assert(output.take(output.len() as int) =~= output);
    }
    let shown = crate::registry::restored_output(registry, output).0;
    assert(forall|i: int|
        0 <= i < output.len() ==> #[trigger] shown[i] == crate::codex::restored_item(
            registry.namespace_map,
            output[i],
        ));
    if registry.namespace_map is None {
        assert(shown =~= output);
    }
}

/// Whether a shown item is a call, but for its name and namespace.
pub open spec fn is_same_call(item: OutputItemView, call: FunctionToolCallView) -> bool {
    &&& item is FunctionCall
    &&& item->FunctionCall_0.id == call.id
    &&& item->FunctionCall_0.call_id == call.call_id
    &&& item->FunctionCall_0.arguments == call.arguments
    &&& item->FunctionCall_0.status == call.status
}

/// Whether a shown item is a call of a namespace's member under its own name.
pub open spec fn is_members_call(item: OutputItemView, member: NamespaceMemberView) -> bool {
    &&& item is FunctionCall
    &&& item->FunctionCall_0.name == member.name
    &&& item->FunctionCall_0.namespace == Some(member.namespace)
}

/// A finished call of the search function alone in an output is shown as a search of the client
/// with the call's id and arguments; two of them are refused.
pub proof fn searches_in_outputs_are_public(
    registry: ToolRegistryView,
    call: FunctionToolCallView,
    arguments: Map<Seq<char>, JsonView>,
)
    requires
        registry.tool_search_translation_enabled,
        call.name == "tool_search"@,
        !registry.withheld_function_names.contains(call.name),
        call.status is Completed,
        call.namespace is None,
        !crate::text::blank(call.id),
        !crate::text::blank(call.call_id),
        crate::json::parsed_json(call.arguments) == Some(JsonView::Object(arguments)),
    ensures
        ({
            let one = seq![OutputItemView::FunctionCall(call)];
            let (shown, outcome) = crate::registry::restored_output(registry, one);
            &&& outcome is Ok
            &&& shown.len() == 1
            &&& shown[0] is ToolSearchCall
            &&& shown[0]->ToolSearchCall_0.call_id == call.call_id
            &&& shown[0]->ToolSearchCall_0.arguments == arguments
            &&& shown[0]->ToolSearchCall_0.status is Completed
        }),
        crate::registry::restored_output(
            registry,
            seq![OutputItemView::FunctionCall(call), OutputItemView::FunctionCall(call)],
        ).1 is Err,
{
    let withheld = registry.withheld_function_names;
    let one = seq![OutputItemView::FunctionCall(call)];
    let two = seq![OutputItemView::FunctionCall(call), OutputItemView::FunctionCall(call)];
    assert(one[0] == OutputItemView::FunctionCall(call));
    assert(two[0] == OutputItemView::FunctionCall(call) && two[1] == two[0]);
    reveal_with_fuel(crate::registry::output_items, 3);
    assert(crate::registry::output_items(withheld, one, 0) is Ok);
    let first = crate::registry::output_items(withheld, one, 1);
    assert(first is Ok && first->Ok_0.searched && first->Ok_0.items.len() == 1);
    assert(crate::registry::output_items(withheld, two, 1) == first);
    assert(crate::registry::output_items(withheld, two, 2) is Err);
}

/// A blocking response changes in its output alone, and only where the request uses tool
/// search.
pub proof fn responses_change_only_in_their_output(
    registry: ToolRegistryView,
    fields: Map<Seq<char>, JsonView>,
)
    ensures
        ({
            let (after, outcome) = crate::registry::normalized_response(
                registry,
                JsonView::Object(fields),
            );
            &&& !registry.tool_search_translation_enabled ==> after == JsonView::Object(fields)
                && outcome is Ok
            &&& !fields.contains_key("output"@) ==> after == JsonView::Object(fields) && outcome
                is Ok
            &&& after is Object
            &&& forall|key: Seq<char>|
                #![trigger after->Object_0[key]]
                fields.contains_key(key) && key != "output"@ ==> after->Object_0.contains_key(key)
                    && after->Object_0[key] == fields[key]
        }),
{
}

/// Whether raw items hold no calls that must not pass and no identities.
pub open spec fn are_raw_plain(withheld: Set<Seq<char>>, items: Seq<JsonView>, n: int) -> bool {
    forall|i: int|
        0 <= i < n && (#[trigger] items[i]) is Object ==> !items[i]->Object_0.contains_key("id"@)
            && (items[i]->Object_0.contains_key("name"@) && items[i]->Object_0["name"@] is Text
            ==> items[i]->Object_0["name"@]->Text_0 != "tool_search"@ && !withheld.contains(
            items[i]->Object_0["name"@]->Text_0,
        ))
}

/// Raw items without searches, withheld calls or identities stay as they are, in their order.
pub proof fn raw_items_stay(withheld: Set<Seq<char>>, items: Seq<JsonView>, n: int)
    requires
        0 <= n <= items.len(),
        are_raw_plain(withheld, items, n),
    ensures
        crate::registry::raw_items(withheld, items, n) is Ok,
        crate::registry::raw_items(withheld, items, n)->Ok_0.items == items.take(n),
    decreases n,
{
    if n > 0 {
        raw_items_stay(withheld, items, n - 1);
        let item = items[n - 1];
        assert(items.take(n) =~= items.take(n - 1).push(item));
    } else {
        assert(items.take(0) =~= Seq::empty());
    }
}

/// A raw call of a withheld function is refused.
pub proof fn raw_withheld_calls_are_refused(
    withheld: Set<Seq<char>>,
    items: Seq<JsonView>,
    i: int,
    n: int,
    name: Seq<char>,
)
    requires
        0 <= i < n <= items.len(),
        items[i] is Object,
        items[i]->Object_0.contains_key("name"@),
        items[i]->Object_0["name"@] == JsonView::Text(name),
        withheld.contains(name),
    ensures
        crate::registry::raw_items(withheld, items, n) is Err,
    decreases n,
{
    if n > i + 1 {
        raw_withheld_calls_are_refused(withheld, items, i, n - 1, name);
    }
}

/// A call of a namespace's member in an event is shown under the member's own name and
/// namespace, and all else of the event stays as it is.
pub proof fn member_calls_in_events_are_restored(
    map: Map<Seq<char>, NamespaceMemberView>,
    fields: Map<Seq<char>, JsonView>,
    call: Map<Seq<char>, JsonView>,
    name: Seq<char>,
)
    requires
        fields.contains_key("item"@),
        fields["item"@] == JsonView::Object(call),
        !fields.contains_key("response"@),
        call.contains_key("name"@),
        call["name"@] == JsonView::Text(name),
        call.contains_key("type"@),
        call["type"@] == JsonView::Text("function_call"@),
        !call.contains_key("namespace"@),
    ensures
        ({
            let after = crate::codex::restored_fields(map, fields);
            let shown = after["item"@]->Object_0;
            &&& forall|key: Seq<char>|
                #![trigger after.contains_key(key)]
                #![trigger after[key]]
                after.contains_key(key) == fields.contains_key(key) && (key != "item"@
                    ==> after[key] == fields[key])
            &&& after["item"@] is Object
            &&& !map.contains_key(name) ==> after["item"@] == fields["item"@]
            &&& map.contains_key(name) ==> shown.contains_key("name"@) && shown["name"@]
                == JsonView::Text(map[name].name)
            &&& map.contains_key(name) ==> shown.contains_key("namespace"@) && shown["namespace"@]
                == JsonView::Text(map[name].namespace)
            &&& forall|key: Seq<char>|
                #![trigger shown[key]]
                call.contains_key(key) && key != "name"@ && key != "namespace"@
                    ==> shown.contains_key(key) && shown[key] == call[key]
        }),
{
    reveal_strlit("name");
    reveal_strlit("namespace");
    assert("name"@.len() == 4);
    assert("namespace"@.len() == 9);
    assert(crate::codex::restored_fields(map, fields) == fields.insert(
        "item"@,
        crate::codex::restored_call_value(map, fields["item"@]),
    ));
}

/// Every item of the output of a response in an event is shown, in its place.
pub proof fn outputs_in_events_stay_whole(
    map: Map<Seq<char>, NamespaceMemberView>,
    fields: Map<Seq<char>, JsonView>,
    response: Map<Seq<char>, JsonView>,
    items: Seq<JsonView>,
)
    requires
        fields.contains_key("response"@),
        fields["response"@] == JsonView::Object(response),
        response.contains_key("output"@),
        response["output"@] == JsonView::Array(items),
    ensures
        ({
            let after = crate::codex::restored_fields(map, fields);
            let shown = after["response"@]->Object_0;
            &&& after.contains_key("response"@) && after["response"@] is Object
            &&& shown.contains_key("output"@) && shown["output"@] is Array
            &&& shown["output"@]->Array_0.len() == items.len()
            &&& forall|i: int|
                0 <= i < items.len() && !((#[trigger] items[i]) is Object)
                    ==> shown["output"@]->Array_0[i] == items[i]
            &&& forall|i: int|
                0 <= i < items.len() && (#[trigger] items[i]) is Object && (
                !items[i]->Object_0.contains_key("name"@) || (items[i]->Object_0["name"@] is Text
                    && !map.contains_key(items[i]->Object_0["name"@]->Text_0)))
                    ==> shown["output"@]->Array_0[i] == items[i]
            &&& forall|key: Seq<char>|
                #![trigger shown[key]]
                response.contains_key(key) && key != "output"@ ==> shown.contains_key(key)
                    && shown[key] == response[key]
        }),
{
    reveal_strlit("item");
    reveal_strlit("response");
    assert("item"@.len() == 4);
    assert("response"@.len() == 8);
}

/// A gateway with a handler for web searches, or with the tools of one more server, has them and
/// all that it had; a server without tools changes nothing.
pub proof fn executors_are_added(
    start: GatewayExecutorsView,
    handler: WebSearchHandlerView,
    server_label: Seq<char>,
    handlers: Seq<McpDiscoveredHandlerView>,
)
    ensures
        ({
            let after = crate::executors::registered(
                start,
                GatewayExecutorRegistrationView::Shared(GatewayHandlerView::WebSearch(handler)),
            );
            after.web_search == Some(handler) && after.mcp == start.mcp && after.connections
                == start.connections
        }),
        ({
            let after = crate::executors::registered(
                start,
                GatewayExecutorRegistrationView::Mcp { server_label, handlers },
            );
            &&& after.web_search == start.web_search && after.connections == start.connections
            &&& handlers.len() == 0 ==> after.mcp == start.mcp
            &&& handlers.len() > 0 ==> after.mcp.contains_key(server_label)
                && after.mcp[server_label].handlers == handlers
            &&& forall|other: Seq<char>|
                other != server_label ==> (#[trigger] after.mcp.contains_key(other))
                    == start.mcp.contains_key(other) && (start.mcp.contains_key(other)
                    ==> after.mcp[other] == start.mcp[other])
        }),
{
}

/// A declared server gives the tools that it is known for and the request allows. It gives none
/// where the declaration asks for a connector, does not waive approval or names no server,
/// where the server is not known or could not be connected to, or where nothing is allowed.
pub proof fn servers_give_their_tools(
    start: GatewayExecutorsView,
    param: McpToolParamView,
    fresh: Seq<char>,
)
    requires
        crate::text_laws::is_tight(param.server_label),
    ensures
        ({
            let (after, found) = crate::executors::server_tools(start, param, fresh);
            let label = param.server_label;
            &&& param.connector_id is Some ==> found is Err
            &&& param.require_approval != Some("never"@) ==> found is Err
            &&& !start.mcp.contains_key(label) && !start.connections.contains_key(label)
                ==> found is Err
            &&& !start.mcp.contains_key(label) && start.connections.contains_key(label)
                && start.connections[label] is Failed ==> found is Err
            &&& start.mcp.contains_key(label) ==> after == start
            &&& found is Ok ==> {
                &&& found->Ok_0.list_tools_item.server_label == label
                &&& found->Ok_0.list_tools_item.error is None
                &&& found->Ok_0.list_tools_item.tools.len()
                    == found->Ok_0.discovered_handlers.len()
                &&& found->Ok_0.discovered_handlers.len() > 0
                &&& after.mcp.contains_key(label)
            }
            &&& found is Ok && !start.mcp.contains_key(label) ==> after.mcp[label].handlers
                == found->Ok_0.discovered_handlers
            &&& found is Err ==> after == start
            &&& after.web_search == start.web_search && after.connections == start.connections
            &&& param.connector_id is None && param.require_approval == Some("never"@)
                && start.mcp.contains_key(label) && param.allowed_tools is None
                && start.mcp[label].handlers.len() > 0 ==> found is Ok
                && found->Ok_0.discovered_handlers == start.mcp[label].handlers
        }),
{
    crate::text_laws::ends_are_trimmed(Seq::empty(), param.server_label, Seq::empty());
    assert(Seq::<char>::empty() + param.server_label + Seq::<char>::empty()
        =~= param.server_label);
    if start.mcp.contains_key(param.server_label) {
        let known = start.mcp[param.server_label].handlers;
        if param.allowed_tools is None {
            all_are_allowed(known, known.len() as int);
            assert(known.take(known.len() as int) =~= known);
        }
    }
}

proof fn all_are_allowed(handlers: Seq<McpDiscoveredHandlerView>, n: int)
    requires
        0 <= n <= handlers.len(),
    ensures
        crate::executors::allowed_handlers(handlers, None, n) == handlers.take(n),
    decreases n,
{
    if n > 0 {
        all_are_allowed(handlers, n - 1);
        assert(handlers.take(n) =~= handlers.take(n - 1).push(handlers[n - 1]));
    } else {
        assert(handlers.take(0) =~= Seq::empty());
    }
}

/// A server is connected to only where its declaration can be used and its tools are not known.
pub proof fn only_new_servers_are_connected_to(
    executors: GatewayExecutorsView,
    param: McpToolParamView,
)
    requires
        crate::text_laws::is_tight(param.server_label),
    ensures
        ({
            let server = crate::executors::to_connect(executors, param);
            &&& server is Some <==> param.connector_id is None && param.require_approval == Some(
                "never"@,
            ) && !executors.mcp.contains_key(param.server_label)
            &&& server is Some ==> server->0 == param.server_label
        }),
{
    crate::text_laws::ends_are_trimmed(Seq::empty(), param.server_label, Seq::empty());
    assert(Seq::<char>::empty() + param.server_label + Seq::<char>::empty()
        =~= param.server_label);
}

/// The servers of a request are each shown with their tools or with what went wrong: one listing
/// for every declared server, in order, and none for anything else.
pub proof fn every_server_is_listed(
    before: BuildView,
    tool: ResponsesToolView,
    at: int,
    fresh: Seq<char>,
)
    requires
        0 <= at < before.tools.len(),
    ensures
        ({
            let (after, error) = crate::registry::declaration_step(before, tool, at, fresh);
            &&& !(tool is Mcp) ==> after.mcp_list_tools_items == before.mcp_list_tools_items
                && after.executors == before.executors && after.tools == before.tools
            &&& tool is Mcp ==> after.mcp_list_tools_items.len()
                == before.mcp_list_tools_items.len() + 1 && after.mcp_list_tools_items.drop_last()
                == before.mcp_list_tools_items
            &&& tool is Mcp && crate::executors::server_tools(
                before.executors,
                tool->Mcp_0,
                fresh,
            ).1 is Err ==> error is None && after.mcp_list_tools_items.last().server_label
                == tool->Mcp_0.server_label && after.mcp_list_tools_items.last().tools.len() == 0
                && after.mcp_list_tools_items.last().error is Some && after.entries
                == before.entries
            &&& after.tools.len() == before.tools.len()
            &&& forall|j: int|
                0 <= j < before.tools.len() && j != at ==> #[trigger] after.tools[j]
                    == before.tools[j]
        }),
{
    let after = crate::registry::declaration_step(before, tool, at, fresh).0;
    if tool is Mcp {
        assert(after.mcp_list_tools_items.drop_last() =~= before.mcp_list_tools_items);
    }
}

/// What is known of a request's custom tools and namespaces is what its declarations say.
pub proof fn registries_know_custom_tools_and_namespaces(
    tools: Seq<ResponsesToolView>,
    executors: GatewayExecutorsView,
    fresh: Seq<Seq<char>>,
    registry: ToolRegistryView,
)
    requires
        crate::registry::registry_of(tools, executors, fresh).2 == Ok::<
            ToolRegistryView,
            ToolErrorView,
        >(registry),
    ensures
        ({
            let built = crate::registry::registry_of(tools, executors, fresh).0;
            &&& registry.custom_tool_map == crate::custom::custom_map_of(built)
            &&& crate::codex::namespace_map_of(Some(built)) == Ok::<
                Option<Map<Seq<char>, NamespaceMemberView>>,
                ToolErrorView,
            >(registry.namespace_map)
        }),
{
}

/// Whether a raw item is named as the search is.
pub open spec fn is_raw_search(item: JsonView) -> bool {
    item is Object && item->Object_0.contains_key("name"@) && item->Object_0["name"@]
        == JsonView::Text("tool_search"@)
}

proof fn raw_searches_are_noted(withheld: Set<Seq<char>>, items: Seq<JsonView>, i: int, n: int)
    requires
        0 <= i < n <= items.len(),
        is_raw_search(items[i]),
        crate::registry::raw_items(withheld, items, n) is Ok,
    ensures
        crate::registry::raw_items(withheld, items, n)->Ok_0.searched,
    decreases n,
{
    if n > i + 1 {
        raw_searches_are_noted(withheld, items, i, n - 1);
    }
}

/// A response searches at most once: a second search in its raw output is refused.
pub proof fn second_raw_searches_are_refused(
    withheld: Set<Seq<char>>,
    items: Seq<JsonView>,
    i: int,
    j: int,
    n: int,
)
    requires
        0 <= i < j < n <= items.len(),
        is_raw_search(items[i]),
        is_raw_search(items[j]),
    ensures
        crate::registry::raw_items(withheld, items, n) is Err,
    decreases n,
{
    if n > j + 1 {
        second_raw_searches_are_refused(withheld, items, i, j, n - 1);
    } else if crate::registry::raw_items(withheld, items, n - 1) is Ok {
        raw_searches_are_noted(withheld, items, i, n - 1);
    }
}

/// Whether an item is a function call of the search's name.
pub open spec fn is_search_call(item: OutputItemView) -> bool {
    item is FunctionCall && item->FunctionCall_0.name == "tool_search"@
}

proof fn searches_are_noted(withheld: Set<Seq<char>>, items: Seq<OutputItemView>, i: int, n: int)
    requires
        0 <= i < n <= items.len(),
        is_search_call(items[i]),
        crate::registry::output_items(withheld, items, n) is Ok,
    ensures
        crate::registry::output_items(withheld, items, n)->Ok_0.searched,
    decreases n,
{
    if n > i + 1 {
        searches_are_noted(withheld, items, i, n - 1);
    }
}

/// A response searches at most once: a second search in its output is refused.
pub proof fn second_searches_are_refused(
    withheld: Set<Seq<char>>,
    items: Seq<OutputItemView>,
    i: int,
    j: int,
    n: int,
)
    requires
        0 <= i < j < n <= items.len(),
        is_search_call(items[i]),
        is_search_call(items[j]),
    ensures
        crate::registry::output_items(withheld, items, n) is Err,
    decreases n,
{
    if n > j + 1 {
        second_searches_are_refused(withheld, items, i, j, n - 1);
    } else if crate::registry::output_items(withheld, items, n - 1) is Ok {
        searches_are_noted(withheld, items, i, n - 1);
    }
}

/// Whether a raw item that is no search has an identity.
pub open spec fn has_raw_id(item: JsonView, id: Seq<char>) -> bool {
    item is Object && crate::accumulator_laws::says(item->Object_0, "id"@, id)
        && !crate::text::blank(id) && !is_raw_search(item)
}

proof fn raw_ids_are_noted(
    withheld: Set<Seq<char>>,
    items: Seq<JsonView>,
    i: int,
    n: int,
    id: Seq<char>,
)
    requires
        0 <= i < n <= items.len(),
        has_raw_id(items[i], id),
        id.len() > 0,
        crate::registry::raw_items(withheld, items, n) is Ok,
    ensures
        crate::registry::raw_items(withheld, items, n)->Ok_0.ids.contains(id),
    decreases n,
{
    if n > i + 1 {
        raw_ids_are_noted(withheld, items, i, n - 1, id);
    }
}

/// Two raw items of one identity are refused.
pub proof fn raw_ids_are_distinct(
    withheld: Set<Seq<char>>,
    items: Seq<JsonView>,
    i: int,
    j: int,
    n: int,
    id: Seq<char>,
)
    requires
        0 <= i < j < n <= items.len(),
        id.len() > 0,
        has_raw_id(items[i], id),
        has_raw_id(items[j], id),
    ensures
        crate::registry::raw_items(withheld, items, n) is Err,
    decreases n,
{
    if n > j + 1 {
        raw_ids_are_distinct(withheld, items, i, j, n - 1, id);
    } else if crate::registry::raw_items(withheld, items, n - 1) is Ok {
        raw_ids_are_noted(withheld, items, i, n - 1, id);
    }
}

} // verus!
