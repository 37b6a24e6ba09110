//! The tools of one request, by the names that the model calls them by: what runs each, and
//! how the model's calls are given back to the client.
use vstd::prelude::*;

use crate::codex::{CodexNamespaceHandler, NamespaceMap};
#[allow(unused_imports)]
use crate::codex::NamespaceMemberView;
use crate::custom::{CustomHandler, CustomToolMap};
use crate::data::{copy_opt, same_opt, Data};
use crate::error::{
    invalid_upstream_search_call, invalid_upstream_withheld_function_call, ToolError,
};
#[allow(unused_imports)]
use crate::error::ToolErrorView;
use crate::events::WireEvent;
#[allow(unused_imports)]
use crate::events::WireEventView;
use crate::executors::{GatewayExecutors, GatewayHandler};
#[allow(unused_imports)]
use crate::executors::{GatewayExecutorsView, GatewayHandlerView};
use crate::ids::fresh_uuid;
use crate::items::{FunctionToolCall, McpListTools, MessageStatus, OutputItem};
#[allow(unused_imports)]
use crate::items::{FunctionToolCallView, McpListToolsView, OutputItemView};
#[allow(unused_imports)]
use crate::json::{Json, JsonView};
use crate::mcp::{McpDiscoveredHandler, McpHandler, McpToolMap, McpToolRef};
#[allow(unused_imports)]
use crate::mcp::{McpDiscoveredHandlerView, McpToolRefView};
use crate::names::validate_model_visible_declared_names;
use crate::search::{public_output_item, public_output_item_from_raw, ToolSearchState};
#[allow(unused_imports)]
use crate::search::ToolSearchStateView;
use crate::tables::{Keys, Table};
use crate::text::{concat, concat3, is_blank, same_text};
use crate::tools::{
    CodexNamespaceMember, CodexNamespaceToolParam, McpDiscoveredToolParam, ResponsesTool, ToolType,
};
#[allow(unused_imports)]
use crate::tools::{
    CodexNamespaceMemberView, CodexNamespaceToolParamView, CustomToolParamView, McpToolParamView,
    ResponsesToolView,
};
use crate::wire::ToJson;
use crate::wire_tools::responses_tool_to_fields;

verus! {

/// How a tool is routed that the model calls by a name.
#[derive(Clone, PartialEq)]
pub struct ToolEntry {
    pub tool_type: ToolType,
    /// The whole declaration, for the executor.
    pub config: Json,
    /// The server or namespace that the tool belongs to.
    pub server_label: Option<String>,
    pub handler: Option<GatewayHandler>,
}

/// The view of a [`ToolEntry`].
#[verifier::ext_equal]
pub struct ToolEntryView {
    pub tool_type: ToolType,
    pub config: JsonView,
    pub server_label: Option<Seq<char>>,
    pub handler: Option<GatewayHandlerView>,
}

impl View for ToolEntry {
    type V = ToolEntryView;

    open spec fn view(&self) -> ToolEntryView {
        ToolEntryView {
            tool_type: self.tool_type,
            config: self.config@,
            server_label: crate::data::opt_view(self.server_label),
            handler: crate::data::opt_view(self.handler),
        }
    }
}

impl Data for ToolEntry {
    fn copied(&self) -> (out: ToolEntry) {
        ToolEntry {
            tool_type: self.tool_type,
            config: self.config.copied(),
            server_label: copy_opt(&self.server_label),
            handler: copy_opt(&self.handler),
        }
    }

    fn same(&self, other: &ToolEntry) -> (yes: bool) {
        self.tool_type == other.tool_type
            && self.config.same(&other.config)
            && same_opt(&self.server_label, &other.server_label)
            && same_opt(&self.handler, &other.handler)
    }
}

/// A call that the gateway runs itself: by what, and with which configuration.
#[derive(Clone, PartialEq)]
pub struct GatewayDispatch {
    pub tool_type: ToolType,
    pub handler: GatewayHandler,
    pub config: Json,
}

/// The view of a [`GatewayDispatch`].
#[verifier::ext_equal]
pub struct GatewayDispatchView {
    pub tool_type: ToolType,
    pub handler: GatewayHandlerView,
    pub config: JsonView,
}

impl View for GatewayDispatch {
    type V = GatewayDispatchView;

    open spec fn view(&self) -> GatewayDispatchView {
        GatewayDispatchView {
            tool_type: self.tool_type,
            handler: self.handler@,
            config: self.config@,
        }
    }
}

impl Data for GatewayDispatch {
    fn copied(&self) -> (out: GatewayDispatch) {
        GatewayDispatch {
            tool_type: self.tool_type,
            handler: self.handler.copied(),
            config: self.config.copied(),
        }
    }

    fn same(&self, other: &GatewayDispatch) -> (yes: bool) {
        self.tool_type == other.tool_type
            && self.handler.same(&other.handler)
            && self.config.same(&other.config)
    }
}

/// The error of a tool whose name is another's.
pub open spec fn name_conflict(
    name: Seq<char>,
    new: ToolType,
    existing: ToolType,
) -> ToolErrorView {
    ToolErrorView::Config(
        crate::tools::tool_type_description(new) + " registry name '"@ + name
            + "' conflicts with existing "@ + crate::tools::tool_type_description(existing),
    )
}

/// The entries with one more, which must have a name of its own.
pub open spec fn with_entry(
    entries: Map<Seq<char>, ToolEntryView>,
    name: Seq<char>,
    entry: ToolEntryView,
) -> Result<Map<Seq<char>, ToolEntryView>, ToolErrorView> {
    if entries.contains_key(name) {
        Err(name_conflict(name, entry.tool_type, entries[name].tool_type))
    } else {
        Ok(entries.insert(name, entry))
    }
}

fn insert_unique(
    entries: &mut Table<String, ToolEntry>,
    name: String,
    entry: ToolEntry,
) -> (out: Result<
    (),
    ToolError,
>)
    ensures
        match with_entry(old(entries)@, name@, entry@) {
            Ok(after) => out is Ok && final(entries)@ == after,
            Err(e) => out matches Err(x) && x@ == e,
        },
{
    if let Some(existing) = entries.get(&name) {
        let start = concat3(entry.tool_type.description(), " registry name '", name.as_str());
        return Err(
            ToolError::Config(
                concat3(
                    start.as_str(),
                    "' conflicts with existing ",
                    existing.tool_type.description(),
                ),
            ),
        );
    }
    entries.insert(name, entry);
    Ok(())
}

/// The entry of a tool that an MCP server listed.
pub open spec fn mcp_entry(discovered: McpDiscoveredHandlerView) -> ToolEntryView {
    ToolEntryView {
        tool_type: ToolType::Mcp,
        config: <McpDiscoveredToolParam as ToJson>::json_of(discovered.param),
        server_label: Some(discovered.param.server_label),
        handler: Some(GatewayHandlerView::Mcp(discovered.handler)),
    }
}

fn make_mcp_entry(discovered: &McpDiscoveredHandler) -> (entry: ToolEntry)
    ensures
        entry@ == mcp_entry(discovered@),
{
    ToolEntry {
        tool_type: ToolType::Mcp,
        config: discovered.param.to_json(),
        server_label: Some(discovered.param.server_label.clone()),
        handler: Some(GatewayHandler::Mcp(discovered.handler.copied())),
    }
}

/// Registers a tool that an MCP server listed, under its internal name. A name that is
/// taken is an error.
pub fn insert_discovered_mcp_entry(
    entries: &mut Table<String, ToolEntry>,
    discovered: &McpDiscoveredHandler,
) -> (out: Result<(), ToolError>)
    ensures
        if old(entries)@.contains_key(discovered@.param.internal_name) {
            &&& final(entries)@ == old(entries)@
            &&& out matches Err(e)
            &&& e@ == ToolErrorView::Config(
                "discovered MCP tool '"@ + discovered@.param.server_label + "/"@
                    + discovered@.param.tool_name
                    + "' conflicts with existing registry entry for internal name '"@
                    + discovered@.param.internal_name + "'"@,
            )
        } else {
            &&& out is Ok
            &&& final(entries)@ == old(entries)@.insert(
                discovered@.param.internal_name,
                mcp_entry(discovered@),
            )
        },
{
    let param = &discovered.param;
    if entries.contains_key(&param.internal_name) {
        let label = concat("discovered MCP tool '", param.server_label.as_str());
        let tool = concat3(label.as_str(), "/", param.tool_name.as_str());
        let named = concat3(
            tool.as_str(),
            "' conflicts with existing registry entry for internal name '",
            param.internal_name.as_str(),
        );
        return Err(ToolError::Config(concat(named.as_str(), "'")));
    }
    entries.insert(param.internal_name.clone(), make_mcp_entry(discovered));
    Ok(())
}

/// The names and entries of the first `n` tools that a server listed, after those that
/// are there.
pub open spec fn with_listed(
    entries: Map<Seq<char>, ToolEntryView>,
    map: Map<Seq<char>, McpToolRefView>,
    handlers: Seq<McpDiscoveredHandlerView>,
    n: int,
) -> Result<(Map<Seq<char>, ToolEntryView>, Map<Seq<char>, McpToolRefView>), ToolErrorView>
    decreases n,
{
    if n <= 0 {
        Ok((entries, map))
    } else {
        match with_listed(entries, map, handlers, n - 1) {
            Err(e) => Err(e),
            Ok((entries, map)) => {
                let param = handlers[n - 1].param;
                match with_entry(entries, param.internal_name, mcp_entry(handlers[n - 1])) {
                    Err(e) => Err(e),
                    Ok(entries) => Ok(
                        (
                            entries,
                            map.insert(
                                param.internal_name,
                                McpToolRefView {
                                    server_label: param.server_label,
                                    tool_name: param.tool_name,
                                },
                            ),
                        ),
                    ),
                }
            },
        }
    }
}

proof fn with_listed_stops(
    entries: Map<Seq<char>, ToolEntryView>,
    map: Map<Seq<char>, McpToolRefView>,
    handlers: Seq<McpDiscoveredHandlerView>,
    i: int,
    n: int,
)
    requires
        0 <= i <= n,
        with_listed(entries, map, handlers, i) is Err,
    ensures
        with_listed(entries, map, handlers, n) == with_listed(entries, map, handlers, i),
    decreases n - i,
{
    if i < n {
        with_listed_stops(entries, map, handlers, i, n - 1);
    }
}

fn insert_listed(
    entries: &mut Table<String, ToolEntry>,
    map: &mut McpToolMap,
    handlers: &Vec<McpDiscoveredHandler>,
) -> (out: Result<(), ToolError>)
    ensures
        match with_listed(
            old(entries)@,
            old(map)@,
            crate::data::views(handlers@),
            handlers@.len() as int,
        ) {
            Ok(after) => out is Ok && (final(entries)@, final(map)@) == after,
            Err(e) => out matches Err(x) && x@ == e,
        },
{
    let ghost all = crate::data::views(handlers@);
    let ghost start = entries@;
    let ghost known = map@;
    let mut i: usize = 0;
    while i < handlers.len()
        invariant
            i <= handlers@.len(),
            all == crate::data::views(handlers@),
            start == old(entries)@,
            known == old(map)@,
            with_listed(start, known, all, i as int) == Ok::<_, ToolErrorView>((entries@, map@)),
        decreases handlers@.len() - i,
    {
        proof {
            assert(all[i as int] == handlers@[i as int]@);
        }
        let param = &handlers[i].param;
        let tool = McpToolRef {
            server_label: param.server_label.clone(),
            tool_name: param.tool_name.clone(),
        };
        let entry = make_mcp_entry(&handlers[i]);
        if let Err(e) = insert_unique(entries, param.internal_name.clone(), entry) {
            proof {
                with_listed_stops(start, known, all, i + 1, handlers@.len() as int);
            }
            return Err(e);
        }
        map.record(param.internal_name.clone(), tool);
        i = i + 1;
    }
    Ok(())
}

/// The entry of a member of a namespace whose members are under their flat names.
pub open spec fn member_entry(namespace: CodexNamespaceToolParamView) -> ToolEntryView {
    ToolEntryView {
        tool_type: ToolType::CodexNamespace,
        config: JsonView::Object(
            crate::wire_tools::responses_tool_fields(ResponsesToolView::Namespace(namespace)).1,
        ),
        server_label: Some(namespace.name),
        handler: None,
    }
}

/// The entries of the first `n` members of a namespace, after those that are there.
pub open spec fn with_members(
    entries: Map<Seq<char>, ToolEntryView>,
    namespace: CodexNamespaceToolParamView,
    n: int,
) -> Result<Map<Seq<char>, ToolEntryView>, ToolErrorView>
    decreases n,
{
    if n <= 0 {
        Ok(entries)
    } else {
        match with_members(entries, namespace, n - 1) {
            Err(e) => Err(e),
            Ok(before) => match namespace.tools[n - 1] {
                CodexNamespaceMemberView::Function(f) => with_entry(
                    before,
                    f.name,
                    member_entry(namespace),
                ),
                CodexNamespaceMemberView::Unknown => Ok(before),
            },
        }
    }
}

proof fn with_members_stops(
    entries: Map<Seq<char>, ToolEntryView>,
    namespace: CodexNamespaceToolParamView,
    i: int,
    n: int,
)
    requires
        0 <= i <= n,
        with_members(entries, namespace, i) is Err,
    ensures
        with_members(entries, namespace, n) == with_members(entries, namespace, i),
    decreases n - i,
{
    if i < n {
        with_members_stops(entries, namespace, i, n - 1);
    }
}

fn insert_members(
    entries: &mut Table<String, ToolEntry>,
    tool: &ResponsesTool,
    namespace: &CodexNamespaceToolParam,
) -> (out: Result<(), ToolError>)
    requires
        tool@ == ResponsesToolView::Namespace(namespace@),
    ensures
        match with_members(old(entries)@, namespace@, namespace@.tools.len() as int) {
            Ok(after) => out is Ok && final(entries)@ == after,
            Err(e) => out matches Err(x) && x@ == e,
        },
{
    let ghost all = namespace@.tools;
    let ghost start = entries@;
    let mut i: usize = 0;
    while i < namespace.tools.len()
        invariant
            i <= namespace.tools@.len(),
            all == crate::data::views(namespace.tools@),
            all == namespace@.tools,
            start == old(entries)@,
            tool@ == ResponsesToolView::Namespace(namespace@),
            with_members(start, namespace@, i as int) == Ok::<_, ToolErrorView>(entries@),
        decreases namespace.tools@.len() - i,
    {
        proof {
            assert(all[i as int] == namespace.tools@[i as int]@);
        }
        if let CodexNamespaceMember::Function(f) = &namespace.tools[i] {
            let (_, config) = responses_tool_to_fields(tool);
            let entry = ToolEntry {
                tool_type: ToolType::CodexNamespace,
                config: Json::Object(config),
                server_label: Some(namespace.name.clone()),
                handler: None,
            };
            if let Err(e) = insert_unique(entries, f.name.clone(), entry) {
                proof {
                    with_members_stops(start, namespace@, i + 1, namespace.tools@.len() as int);
                }
                return Err(e);
            }
        }
        i = i + 1;
    }
    Ok(())
}

/// The name and entry of a declaration that is one tool.
pub open spec fn single_entry(
    tool: ResponsesToolView,
    web_search: Option<crate::web_search::WebSearchHandlerView>,
) -> Option<
    (Seq<char>, ToolEntryView),
> {
    let entry = ToolEntryView {
        tool_type: match tool {
            ResponsesToolView::Custom(_) => ToolType::Custom,
            ResponsesToolView::WebSearch(_) => ToolType::WebSearch,
            ResponsesToolView::FileSearch(_) => ToolType::FileSearch,
            ResponsesToolView::CodeInterpreter(_) => ToolType::CodeInterpreter,
            _ => ToolType::Function,
        },
        config: JsonView::Object(crate::wire_tools::responses_tool_fields(tool).1),
        server_label: None,
        handler: match (tool, web_search) {
            (ResponsesToolView::WebSearch(_), Some(handler)) => Some(
                GatewayHandlerView::WebSearch(handler),
            ),
            _ => None,
        },
    };
    match tool {
        ResponsesToolView::Function(f) => Some((f.name, entry)),
        ResponsesToolView::Custom(c) => Some((c.name, entry)),
        ResponsesToolView::WebSearch(_) => Some(("web_search"@, entry)),
        ResponsesToolView::FileSearch(_) => Some(("file_search"@, entry)),
        ResponsesToolView::CodeInterpreter(_) => Some(("code_interpreter"@, entry)),
        _ => None,
    }
}

fn make_single_entry(tool: &ResponsesTool, executors: &GatewayExecutors) -> (out: Option<
    (String, ToolEntry),
>)
    ensures
        match single_entry(tool@, executors@.web_search) {
            Some((name, entry)) => out matches Some(x) && x.0@ == name && x.1@ == entry,
            None => out is None,
        },
{
    let (name, tool_type) = match tool {
        ResponsesTool::Function(f) => (f.name.clone(), ToolType::Function),
        ResponsesTool::Custom(c) => (c.name.clone(), ToolType::Custom),
        ResponsesTool::WebSearch(_) => ("web_search".to_owned(), ToolType::WebSearch),
        ResponsesTool::FileSearch(_) => ("file_search".to_owned(), ToolType::FileSearch),
        ResponsesTool::CodeInterpreter(_) => (
            "code_interpreter".to_owned(),
            ToolType::CodeInterpreter,
        ),
        _ => {
            return None;
        },
    };
    let handler = match tool {
        ResponsesTool::WebSearch(_) => match executors.web_search_handler() {
            Some(handler) => Some(GatewayHandler::WebSearch(handler)),
            None => None,
        },
        _ => None,
    };
    let (_, config) = responses_tool_to_fields(tool);
    Some((name, ToolEntry { tool_type, config: Json::Object(config), server_label: None, handler }))
}

/// What is known while declarations are gone through.
#[verifier::ext_equal]
pub struct BuildView {
    pub entries: Map<Seq<char>, ToolEntryView>,
    pub mcp_tool_map: Map<Seq<char>, McpToolRefView>,
    pub mcp_list_tools_items: Seq<McpListToolsView>,
    pub executors: GatewayExecutorsView,
    pub tools: Seq<ResponsesToolView>,
}

/// A declaration of an MCP server with the tools that the server listed.
pub open spec fn with_tools(
    tool: ResponsesToolView,
    handlers: Seq<McpDiscoveredHandlerView>,
) -> ResponsesToolView {
    match tool {
        ResponsesToolView::Mcp(p) => ResponsesToolView::Mcp(
            McpToolParamView {
                discovered_tools: handlers.map_values(|h: McpDiscoveredHandlerView| h.param),
                ..p
            },
        ),
        other => other,
    }
}

/// One declaration, at a place among the declarations. A server that cannot be used is
/// listed as failed; two tools with one name are an error.
pub open spec fn declaration_step(
    before: BuildView,
    tool: ResponsesToolView,
    at: int,
    fresh: Seq<char>,
) -> (BuildView, Option<ToolErrorView>) {
    match tool {
        ResponsesToolView::Mcp(p) => {
            let (executors, found) = crate::executors::server_tools(before.executors, p, fresh);
            match found {
                Err(e) => (
                    BuildView {
                        executors,
                        mcp_list_tools_items: before.mcp_list_tools_items.push(
                            crate::mcp::failed_listing(p.server_label, e, fresh),
                        ),
                        ..before
                    },
                    None,
                ),
                Ok(set) => {
                    let listed = BuildView {
                        executors,
                        mcp_list_tools_items: before.mcp_list_tools_items.push(
                            set.list_tools_item,
                        ),
                        tools: before.tools.update(
                            at,
                            with_tools(before.tools[at], set.discovered_handlers),
                        ),
                        ..before
                    };
                    match with_listed(
                        before.entries,
                        before.mcp_tool_map,
                        set.discovered_handlers,
                        set.discovered_handlers.len() as int,
                    ) {
                        Ok((entries, mcp_tool_map)) => (
                            BuildView { entries, mcp_tool_map, ..listed },
                            None,
                        ),
                        Err(e) => (listed, Some(e)),
                    }
                },
            }
        },
        ResponsesToolView::Namespace(n) => match with_members(
            before.entries,
            n,
            n.tools.len() as int,
        ) {
            Ok(entries) => (BuildView { entries, ..before }, None),
            Err(e) => (before, Some(e)),
        },
        other => match single_entry(other, before.executors.web_search) {
            None => (before, None),
            Some((name, entry)) => match with_entry(before.entries, name, entry) {
                Ok(entries) => (BuildView { entries, ..before }, None),
                Err(e) => (before, Some(e)),
            },
        },
    }
}

/// The new id at a place, or nothing where there is none.
pub open spec fn fresh_at(fresh: Seq<Seq<char>>, at: int) -> Seq<char> {
    if 0 <= at < fresh.len() {
        fresh[at]
    } else {
        Seq::empty()
    }
}

/// The first `n` declarations, up to the first error.
pub open spec fn declared_so_far(
    start: BuildView,
    resolved: Seq<ResponsesToolView>,
    fresh: Seq<Seq<char>>,
    n: int,
) -> (BuildView, Option<ToolErrorView>)
    decreases n,
{
    if n <= 0 {
        (start, None)
    } else {
        match declared_so_far(start, resolved, fresh, n - 1) {
            (before, Some(e)) => (before, Some(e)),
            (before, None) => declaration_step(
                before,
                resolved[n - 1],
                n - 1,
                fresh_at(fresh, n - 1),
            ),
        }
    }
}

proof fn declared_so_far_stops(
    start: BuildView,
    resolved: Seq<ResponsesToolView>,
    fresh: Seq<Seq<char>>,
    i: int,
    n: int,
)
    requires
        0 <= i <= n,
        declared_so_far(start, resolved, fresh, i).1 is Some,
    ensures
        declared_so_far(start, resolved, fresh, n) == declared_so_far(start, resolved, fresh, i),
    decreases n - i,
{
    if i < n {
        declared_so_far_stops(start, resolved, fresh, i, n - 1);
    }
}

/// The tools of one request, by the names that the model calls them by.
pub struct ToolRegistry {
    pub entries: Table<String, ToolEntry>,
    /// Whether calls of the search function are shown as searches. That is so too where
    /// no search function is declared and only the history holds searches.
    pub tool_search_translation_enabled: bool,
    /// The functions that are known publicly but not shown to the model.
    pub withheld_function_names: Keys<String>,
    pub namespace_map: Option<NamespaceMap>,
    /// The public declarations of the custom tools.
    pub custom_tool_map: Option<CustomToolMap>,
    pub mcp_tool_map: McpToolMap,
    /// What each declared server listed, in declaration order.
    pub mcp_list_tools_items: Vec<McpListTools>,
}

/// The view of a [`ToolRegistry`].
#[verifier::ext_equal]
pub struct ToolRegistryView {
    pub entries: Map<Seq<char>, ToolEntryView>,
    pub tool_search_translation_enabled: bool,
    pub withheld_function_names: Set<Seq<char>>,
    pub namespace_map: Option<Map<Seq<char>, NamespaceMemberView>>,
    pub custom_tool_map: Option<Map<Seq<char>, CustomToolParamView>>,
    pub mcp_tool_map: Map<Seq<char>, McpToolRefView>,
    pub mcp_list_tools_items: Seq<McpListToolsView>,
}

impl View for ToolRegistry {
    type V = ToolRegistryView;

    open spec fn view(&self) -> ToolRegistryView {
        ToolRegistryView {
            entries: self.entries@,
            tool_search_translation_enabled: self.tool_search_translation_enabled,
            withheld_function_names: self.withheld_function_names@,
            namespace_map: match self.namespace_map {
                Some(map) => Some(map@),
                None => None,
            },
            custom_tool_map: match self.custom_tool_map {
                Some(map) => Some(map@),
                None => None,
            },
            mcp_tool_map: self.mcp_tool_map@,
            mcp_list_tools_items: crate::data::views(self.mcp_list_tools_items@),
        }
    }
}

/// The declarations and executors after a registry was built, and the registry.
pub open spec fn registry_of(
    tools: Seq<ResponsesToolView>,
    executors: GatewayExecutorsView,
    fresh: Seq<Seq<char>>,
) -> (Seq<ResponsesToolView>, GatewayExecutorsView, Result<ToolRegistryView, ToolErrorView>) {
    let resolved = crate::codex::renamed_tools(tools);
    let start = BuildView {
        entries: Map::empty(),
        mcp_tool_map: Map::empty(),
        mcp_list_tools_items: Seq::empty(),
        executors,
        tools,
    };
    match crate::names::take_names(crate::names::declared_names(tools)) {
        Err(e) => (tools, executors, Err(e)),
        Ok(_) => match crate::mcp::labels_valid(resolved, 0) {
            Err(e) => (tools, executors, Err(e)),
            Ok(_) => match declared_so_far(start, resolved, fresh, tools.len() as int) {
                (built, Some(e)) => (built.tools, built.executors, Err(e)),
                (built, None) => (
                    built.tools,
                    built.executors,
                    match crate::codex::namespace_map_of(Some(built.tools)) {
                        Err(e) => Err(e),
                        Ok(namespace_map) => Ok(
                            ToolRegistryView {
                                entries: built.entries,
                                tool_search_translation_enabled: false,
                                withheld_function_names: Set::empty(),
                                namespace_map,
                                custom_tool_map: crate::custom::custom_map_of(built.tools),
                                mcp_tool_map: built.mcp_tool_map,
                                mcp_list_tools_items: built.mcp_list_tools_items,
                            },
                        ),
                    },
                ),
            },
        },
    }
}

fn copy_params(handlers: &Vec<McpDiscoveredHandler>) -> (params: Vec<McpDiscoveredToolParam>)
    ensures
        crate::data::views(params@) == crate::data::views(handlers@).map_values(
            |h: McpDiscoveredHandlerView| h.param,
        ),
{
    let mut params: Vec<McpDiscoveredToolParam> = Vec::new();
    let mut i: usize = 0;
    while i < handlers.len()
        invariant
            i <= handlers@.len(),
            params@.len() == i,
            forall|j: int| 0 <= j < i ==> (#[trigger] params@[j])@ == handlers@[j]@.param,
        decreases handlers@.len() - i,
    {
        params.push(handlers[i].param.copied());
        i = i + 1;
    }
    proof {
        assert(crate::data::views(params@) =~= crate::data::views(handlers@).map_values(
            |h: McpDiscoveredHandlerView| h.param,
        ));
    }
    params
}

/// The registry while declarations are gone through.
struct Build {
    entries: Table<String, ToolEntry>,
    mcp_tool_map: McpToolMap,
    mcp_list_tools_items: Vec<McpListTools>,
}

spec fn build_view(
    build: Build,
    executors: GatewayExecutors,
    tools: Seq<ResponsesTool>,
) -> BuildView {
    BuildView {
        entries: build.entries@,
        mcp_tool_map: build.mcp_tool_map@,
        mcp_list_tools_items: crate::data::views(build.mcp_list_tools_items@),
        executors: executors@,
        tools: crate::data::views(tools),
    }
}

/// Whether two stages agree on what outlives an error.
spec fn same_surroundings(a: BuildView, b: BuildView) -> bool {
    a.executors == b.executors && a.tools == b.tools
}

impl Build {
    fn declare(
        &mut self,
        executors: &mut GatewayExecutors,
        tools: &mut Vec<ResponsesTool>,
        tool: &ResponsesTool,
        at: usize,
        fresh: &str,
    ) -> (out: Result<(), ToolError>)
        requires
            at < old(tools)@.len(),
        ensures
            final(tools)@.len() == old(tools)@.len(),
            match declaration_step(
                build_view(*old(self), *old(executors), old(tools)@),
                tool@,
                at as int,
                fresh@,
            ) {
                (after, None) => out is Ok && build_view(
                    *final(self),
                    *final(executors),
                    final(tools)@,
                ) == after,
                (after, Some(e)) => out matches Err(x) && x@ == e && same_surroundings(
                    build_view(*final(self), *final(executors), final(tools)@),
                    after,
                ),
            },
    {
        match tool {
            ResponsesTool::Mcp(p) => {
                match executors.mcp_server_tools_with(p, fresh) {
                    Err(e) => {
                        let item = McpHandler::failed_list_tools_item(
                            p.server_label.as_str(),
                            &e,
                            fresh,
                        );
                        proof {
                            crate::data::views_push(self.mcp_list_tools_items@, item);
                        }
                        self.mcp_list_tools_items.push(item);
                        Ok(())
                    },
                    Ok(set) => {
                        proof {
                            crate::data::views_push(
                                self.mcp_list_tools_items@,
                                set.list_tools_item,
                            );
                            assert(crate::data::views(set.discovered_handlers@).len()
                                == set.discovered_handlers@.len());
                        }
                        let ghost before = tools@;
                        self.mcp_list_tools_items.push(set.list_tools_item);
                        let mut declared = tools[at].copied();
                        if let ResponsesTool::Mcp(declaration) = &tools[at] {
                            let mut declaration = declaration.copied();
                            declaration.discovered_tools = copy_params(&set.discovered_handlers);
                            declared = ResponsesTool::Mcp(declaration);
                        }
                        tools.set(at, declared);
                        proof {
                            assert(crate::data::views(tools@) =~= crate::data::views(
                                before,
                            ).update(
                                at as int,
                                with_tools(
                                    crate::data::views(before)[at as int],
                                    crate::data::views(set.discovered_handlers@),
                                ),
                            ));
                        }
                        insert_listed(
                            &mut self.entries,
                            &mut self.mcp_tool_map,
                            &set.discovered_handlers,
                        )
                    },
                }
            },
            ResponsesTool::Namespace(n) => {
                proof {
                    assert(crate::data::views(n.tools@).len() == n.tools@.len());
                }
                insert_members(&mut self.entries, tool, n)
            },
            other => match make_single_entry(other, &*executors) {
                Some((name, entry)) => insert_unique(&mut self.entries, name, entry),
                None => Ok(()),
            },
        }
    }
}

/// Whether some entry has a name among the withheld.
pub open spec fn collides(
    entries: Map<Seq<char>, ToolEntryView>,
    withheld: Set<Seq<char>>,
) -> bool {
    exists|name: Seq<char>| #[trigger] entries.contains_key(name) && withheld.contains(name)
}

fn any_withheld(entries: &Table<String, ToolEntry>, withheld: &Keys<String>) -> (yes: bool)
    ensures
        yes == collides(entries@, withheld@),
{
    let n: usize = entries.len();
    let ghost keys = entries.keys();
    let mut i: usize = 0;
    while i < n
        invariant
            i <= n == keys.len(),
            keys == entries.keys(),
            forall|k: Seq<char>| entries@.contains_key(k) <==> keys.contains(k),
            forall|j: int| 0 <= j < i ==> !withheld@.contains(#[trigger] keys[j]),
        decreases n - i,
    {
        let name = entries.key_at(i);
        if withheld.contains(name) {
            return true;
        }
        i = i + 1;
    }
    proof {
        assert forall|name: Seq<char>| #[trigger]
            entries@.contains_key(name) implies !withheld@.contains(name) by {
            assert(keys.contains(name));
            let j = choose|j: int| 0 <= j < keys.len() && keys[j] == name;
            assert(!withheld@.contains(keys[j]));
        }
    }
    false
}

/// Whether the history calls a function of a server before the server was loaded.
pub open spec fn calls_too_early(registry: ToolRegistryView, state: ToolSearchStateView) -> bool {
    exists|name: Seq<char>| #[trigger]
        crate::mcp::called_too_early(
            registry.mcp_tool_map,
            state.mcp_load_positions,
            state.unqualified_call_positions,
            name,
        )
}

/// The registry once it is known how the request uses tool search. Only the function that
/// was made for an active search becomes one.
pub open spec fn classified(registry: ToolRegistryView, state: ToolSearchStateView) -> (
    ToolRegistryView,
    Result<(), ToolErrorView>,
) {
    let told = ToolRegistryView {
        tool_search_translation_enabled: state.active,
        withheld_function_names: state.withheld_function_names,
        ..registry
    };
    if !state.active {
        (told, Ok(()))
    } else if collides(registry.entries, state.withheld_function_names) {
        (
            told,
            Err(ToolErrorView::Config("a loaded tool collides with a withheld function name"@)),
        )
    } else if calls_too_early(registry, state) {
        (
            told,
            Err(
                ToolErrorView::Config(
                    "request history calls an MCP function before its server definition is loaded"@,
                ),
            ),
        )
    } else {
        match state.synthetic_function {
            None => (told, Ok(())),
            Some(f) => if !registry.entries.contains_key(f.name) {
                (
                    told,
                    Err(
                        ToolErrorView::Config(
                            "prepared tool-search function is missing from the private registry"@,
                        ),
                    ),
                )
            } else if registry.entries[f.name].tool_type != ToolType::Function
                || registry.entries[f.name].handler is Some {
                (
                    told,
                    Err(
                        ToolErrorView::Config(
                            "prepared tool-search function has invalid private registry ownership"@,
                        ),
                    ),
                )
            } else {
                (
                    ToolRegistryView {
                        entries: registry.entries.insert(
                            f.name,
                            ToolEntryView {
                                tool_type: ToolType::ToolSearch,
                                ..registry.entries[f.name]
                            },
                        ),
                        ..told
                    },
                    Ok(()),
                )
            },
        }
    }
}

/// The type of each tool by the name that the model calls it by.
pub open spec fn tool_types(registry: ToolRegistryView) -> Map<Seq<char>, ToolType> {
    let types = registry.entries.map_values(|entry: ToolEntryView| entry.tool_type);
    if registry.tool_search_translation_enabled {
        types.insert("tool_search"@, ToolType::ToolSearch)
    } else {
        types
    }
}

/// What is known while the items of an output are gone through: whether there was a search,
/// which public ids are taken, and the public items.
#[verifier::ext_equal]
pub struct Scan<T> {
    pub searched: bool,
    pub ids: Set<Seq<char>>,
    pub items: Seq<T>,
}

/// A scan with one item more. An empty id is no id; one that is taken is an error.
pub open spec fn scan_item<T>(before: Scan<T>, searched: bool, id: Seq<char>, item: T) -> Result<
    Scan<T>,
    ToolErrorView,
> {
    if id.len() > 0 && before.ids.contains(id) {
        Err(crate::error::invalid_search_call())
    } else {
        Ok(
            Scan {
                searched: before.searched || searched,
                ids: if id.len() > 0 {
                    before.ids.insert(id)
                } else {
                    before.ids
                },
                items: before.items.push(item),
            },
        )
    }
}

/// A text that says something, or nothing.
pub open spec fn non_blank_or_empty(text: Option<Seq<char>>) -> Seq<char> {
    match text {
        Some(t) if !crate::text::blank(t) => t,
        _ => Seq::empty(),
    }
}

/// One raw item of an output. A call of the search function becomes a public search, of
/// which there is at most one; a call of a withheld function is an error.
pub open spec fn raw_item_step(
    withheld: Set<Seq<char>>,
    before: Scan<JsonView>,
    item: JsonView,
) -> Result<
    Scan<JsonView>,
    ToolErrorView,
> {
    match item {
        JsonView::Object(fields) => {
            let name = crate::json::text_field(fields, "name"@);
            if name matches Some(n) && withheld.contains(n) {
                Err(crate::error::withheld_function_call())
            } else if name == Some("tool_search"@) {
                if before.searched {
                    Err(crate::error::invalid_search_call())
                } else {
                    match crate::search::raw_output_item(fields) {
                        Err(e) => Err(e),
                        Ok(call) => scan_item(
                            before,
                            true,
                            call.id,
                            <OutputItem as ToJson>::json_of(OutputItemView::ToolSearchCall(call)),
                        ),
                    }
                }
            } else {
                scan_item(
                    before,
                    false,
                    non_blank_or_empty(crate::json::text_field(fields, "id"@)),
                    item,
                )
            }
        },
        other => Ok(Scan { items: before.items.push(other), ..before }),
    }
}

/// The first `n` raw items of an output.
pub open spec fn raw_items(withheld: Set<Seq<char>>, items: Seq<JsonView>, n: int) -> Result<
    Scan<JsonView>,
    ToolErrorView,
>
    decreases n,
{
    if n <= 0 {
        Ok(Scan { searched: false, ids: Set::empty(), items: Seq::empty() })
    } else {
        match raw_items(withheld, items, n - 1) {
            Err(e) => Err(e),
            Ok(before) => raw_item_step(withheld, before, items[n - 1]),
        }
    }
}

proof fn raw_items_stop(withheld: Set<Seq<char>>, items: Seq<JsonView>, i: int, n: int)
    requires
        0 <= i <= n,
        raw_items(withheld, items, i) is Err,
    ensures
        raw_items(withheld, items, n) == raw_items(withheld, items, i),
    decreases n - i,
{
    if i < n {
        raw_items_stop(withheld, items, i, n - 1);
    }
}

/// A blocking response with its search shown publicly, or as it was where it is not as it
/// should be.
pub open spec fn normalized_response(registry: ToolRegistryView, response: JsonView) -> (
    JsonView,
    Result<(), ToolErrorView>,
) {
    match response {
        JsonView::Object(fields) => match crate::json::object_field(fields, "output"@) {
            Some(
                JsonView::Array(items),
            ) if registry.tool_search_translation_enabled => match raw_items(
                registry.withheld_function_names,
                items,
                items.len() as int,
            ) {
                Ok(scan) => (
                    JsonView::Object(fields.insert("output"@, JsonView::Array(scan.items))),
                    Ok(()),
                ),
                Err(e) => (response, Err(e)),
            },
            _ => (response, Ok(())),
        },
        _ => (response, Ok(())),
    }
}

/// The id that an output item is shown under, or nothing.
pub open spec fn shown_id(item: OutputItemView) -> Seq<char> {
    non_blank_or_empty(
        crate::json::text_field(crate::wire_items::output_item_fields(item), "id"@),
    )
}

/// One item of an output. A call of the search function becomes a public search, of which
/// there is at most one; a call of a withheld function is an error.
pub open spec fn output_item_step(
    withheld: Set<Seq<char>>,
    before: Scan<OutputItemView>,
    item: OutputItemView,
) -> Result<Scan<OutputItemView>, ToolErrorView> {
    match item {
        OutputItemView::FunctionCall(call) => if withheld.contains(call.name) {
            Err(crate::error::withheld_function_call())
        } else if call.name == "tool_search"@ {
            if before.searched || call.status != MessageStatus::Completed || call.namespace is Some {
                Err(crate::error::invalid_search_call())
            } else {
                match crate::search::output_item_of(
                    call.id,
                    call.call_id,
                    crate::json::parsed_json(call.arguments),
                ) {
                    Err(e) => Err(e),
                    Ok(search) => {
                        let shown = OutputItemView::ToolSearchCall(search);
                        scan_item(before, true, shown_id(shown), shown)
                    },
                }
            }
        } else {
            scan_item(before, false, shown_id(item), item)
        },
        other => scan_item(before, false, shown_id(other), other),
    }
}

/// The first `n` items of an output.
pub open spec fn output_items(
    withheld: Set<Seq<char>>,
    items: Seq<OutputItemView>,
    n: int,
) -> Result<
    Scan<OutputItemView>,
    ToolErrorView,
>
    decreases n,
{
    if n <= 0 {
        Ok(Scan { searched: false, ids: Set::empty(), items: Seq::empty() })
    } else {
        match output_items(withheld, items, n - 1) {
            Err(e) => Err(e),
            Ok(before) => output_item_step(withheld, before, items[n - 1]),
        }
    }
}

proof fn output_items_stop(withheld: Set<Seq<char>>, items: Seq<OutputItemView>, i: int, n: int)
    requires
        0 <= i <= n,
        output_items(withheld, items, i) is Err,
    ensures
        output_items(withheld, items, n) == output_items(withheld, items, i),
    decreases n - i,
{
    if i < n {
        output_items_stop(withheld, items, i, n - 1);
    }
}

/// A finished output as the client sees it, or as it was where it is not as it should be.
pub open spec fn restored_output(registry: ToolRegistryView, output: Seq<OutputItemView>) -> (
    Seq<OutputItemView>,
    Result<(), ToolErrorView>,
) {
    let searched = if registry.tool_search_translation_enabled {
        match output_items(registry.withheld_function_names, output, output.len() as int) {
            Ok(scan) => Ok(scan.items),
            Err(e) => Err(e),
        }
    } else {
        Ok(output)
    };
    match searched {
        Err(e) => (output, Err(e)),
        Ok(items) => (
            items.map_values(
                |item: OutputItemView| crate::codex::restored_item(registry.namespace_map, item),
            ),
            Ok(()),
        ),
    }
}

/// Whether a name is that of a tool that the gateway runs.
pub open spec fn gateway_owned_name(registry: ToolRegistryView, name: Seq<char>) -> bool {
    registry.entries.contains_key(name) && crate::tools::gateway_owned_type(
        registry.entries[name].tool_type,
    )
}

/// Those of the first `n` calls that the gateway runs, or else those that it does not.
pub open spec fn owned_calls(
    registry: ToolRegistryView,
    calls: Seq<FunctionToolCallView>,
    by_gateway: bool,
    n: int,
) -> Seq<FunctionToolCallView>
    decreases n,
{
    if n <= 0 {
        Seq::empty()
    } else {
        let before = owned_calls(registry, calls, by_gateway, n - 1);
        if gateway_owned_name(registry, calls[n - 1].name) == by_gateway {
            before.push(calls[n - 1])
        } else {
            before
        }
    }
}

/// How a call is run by the gateway, if it is.
pub open spec fn dispatch_of(registry: ToolRegistryView, call: FunctionToolCallView) -> Option<
    GatewayDispatchView,
> {
    if registry.entries.contains_key(call.name) {
        match registry.entries[call.name].handler {
            Some(handler) => Some(
                GatewayDispatchView {
                    tool_type: registry.entries[call.name].tool_type,
                    handler,
                    config: registry.entries[call.name].config,
                },
            ),
            None => None,
        }
    } else {
        None
    }
}

/// The fields of an event as the client sees them: custom tools with their public
/// declarations, and members' calls under the members' own names.
pub open spec fn event_fields(
    registry: ToolRegistryView,
    fields: Map<Seq<char>, JsonView>,
) -> Map<Seq<char>, JsonView> {
    let declared = match registry.custom_tool_map {
        Some(known) => crate::custom::restored_declarations(known, fields),
        None => fields,
    };
    match registry.namespace_map {
        Some(known) => crate::codex::restored_fields(known, declared),
        None => declared,
    }
}

impl ToolRegistry {
    /// A registry without tools.
    pub fn new() -> (registry: ToolRegistry)
        ensures
            registry@ == (ToolRegistryView {
                entries: Map::empty(),
                tool_search_translation_enabled: false,
                withheld_function_names: Set::empty(),
                namespace_map: None,
                custom_tool_map: None,
                mcp_tool_map: Map::empty(),
                mcp_list_tools_items: Seq::empty(),
            }),
    {
        let items: Vec<McpListTools> = Vec::new();
        proof {
            assert(crate::data::views(items@) =~= Seq::empty());
        }
        ToolRegistry {
            entries: Table::new(),
            tool_search_translation_enabled: false,
            withheld_function_names: Keys::new(),
            namespace_map: None,
            custom_tool_map: None,
            mcp_tool_map: McpToolMap::new(),
            mcp_list_tools_items: items,
        }
    }

    /// The registry of a request's declarations. A declaration of an MCP server gets the
    /// tools that the server listed; a server that cannot be used is listed as failed.
    pub fn build_with_handlers(
        tools: &mut Vec<ResponsesTool>,
        executors: &mut GatewayExecutors,
    ) -> (out: Result<
        ToolRegistry,
        ToolError,
    >)
        ensures
            exists|fresh: Seq<Seq<char>>|
                fresh.len() == old(tools)@.len() && crate::accumulator::all_uuids(fresh) && (
                    crate::data::views(final(tools)@),
                    final(executors)@,
                    crate::error::outcome(out),
                ) == #[trigger] registry_of(
                    crate::data::views(old(tools)@),
                    old(executors)@,
                    fresh,
                ),
    {
        let mut fresh: Vec<String> = Vec::new();
        let n: usize = tools.len();
        let mut i: usize = 0;
        while i < n
            invariant
                i <= n,
                n == tools@.len(),
                fresh@.len() == i,
                crate::accumulator::all_uuids(crate::data::views(fresh@)),
            decreases n - i,
        {
            let uuid = fresh_uuid();
            proof {
                crate::data::views_push(fresh@, uuid);
            }
            fresh.push(uuid);
            i = i + 1;
        }
        Self::build_with_ids(tools, executors, &fresh)
    }

    /// The registry of a request's declarations, with the ids that servers are listed
    /// under.
    pub fn build_with_ids(
        tools: &mut Vec<ResponsesTool>,
        executors: &mut GatewayExecutors,
        fresh: &Vec<String>,
    ) -> (out: Result<ToolRegistry, ToolError>)
        ensures
            (crate::data::views(final(tools)@), final(executors)@, crate::error::outcome(out))
                == registry_of(
                crate::data::views(old(tools)@),
                old(executors)@,
                crate::data::views(fresh@),
            ),
    {
        let ghost declared = crate::data::views(tools@);
        let ghost ids = crate::data::views(fresh@);
        if let Err(e) = validate_model_visible_declared_names(&*tools) {
            return Err(e);
        }
        let resolved = CodexNamespaceHandler::resolve_namespace_members_after_validation(&*tools);
        let ghost all = crate::data::views(resolved@);
        proof {
            assert(all.len() == resolved@.len());
            assert(all.len() == tools@.len());
        }
        if let Err(e) = McpHandler::validate_server_labels(&resolved) {
            return Err(e);
        }
        let items: Vec<McpListTools> = Vec::new();
        proof {
            assert(crate::data::views(items@) =~= Seq::empty());
        }
        let mut build = Build {
            entries: Table::new(),
            mcp_tool_map: McpToolMap::new(),
            mcp_list_tools_items: items,
        };
        let ghost start = build_view(build, *executors, tools@);
        let mut i: usize = 0;
        while i < resolved.len()
            invariant
                i <= resolved@.len(),
                all == crate::data::views(resolved@),
                ids == crate::data::views(fresh@),
                resolved@.len() == tools@.len(),
                resolved@.len() == declared.len(),
                declared_so_far(start, all, ids, i as int) == (
                    build_view(build, *executors, tools@),
                    None::<ToolErrorView>,
                ),
                declared == crate::data::views(old(tools)@),
                all == crate::codex::renamed_tools(declared),
                start.executors == old(executors)@,
                start.tools == declared,
                start.entries == Map::<Seq<char>, ToolEntryView>::empty(),
                start.mcp_tool_map == Map::<Seq<char>, McpToolRefView>::empty(),
                start.mcp_list_tools_items == Seq::<McpListToolsView>::empty(),
                crate::names::take_names(crate::names::declared_names(declared)) is Ok,
                crate::mcp::labels_valid(all, 0) is Ok,
            decreases resolved@.len() - i,
        {
            proof {
                assert(all[i as int] == resolved@[i as int]@);
            }
            let id: &str = if i < fresh.len() {
                fresh[i].as_str()
            } else {
                ""
            };
            proof {
                reveal_strlit("");
                assert(""@ =~= Seq::empty());
                assert(id@ == fresh_at(ids, i as int));
            }
            if let Err(e) = build.declare(executors, tools, &resolved[i], i, id) {
                proof {
                    declared_so_far_stops(start, all, ids, i + 1, resolved@.len() as int);
                    assert(start =~= BuildView {
                        entries: Map::empty(),
                        mcp_tool_map: Map::empty(),
                        mcp_list_tools_items: Seq::empty(),
                        executors: old(executors)@,
                        tools: declared,
                    });
                }
                return Err(e);
            }
            i = i + 1;
        }
        proof {
            assert(start =~= BuildView {
                entries: Map::empty(),
                mcp_tool_map: Map::empty(),
                mcp_list_tools_items: Seq::empty(),
                executors: old(executors)@,
                tools: declared,
            });
        }
        let namespace_map = match CodexNamespaceHandler.build_namespace_map(Some(&*tools)) {
            Ok(map) => map,
            Err(e) => {
                return Err(e);
            },
        };
        let custom_tool_map = CustomHandler::build_tool_map(&*tools);
        Ok(
            ToolRegistry {
                entries: build.entries,
                tool_search_translation_enabled: false,
                withheld_function_names: Keys::new(),
                namespace_map,
                custom_tool_map,
                mcp_tool_map: build.mcp_tool_map,
                mcp_list_tools_items: build.mcp_list_tools_items,
            },
        )
    }

    /// How a tool is routed.
    pub fn lookup(&self, tool_name: &str) -> (entry: Option<&ToolEntry>)
        ensures
            entry is Some == self@.entries.contains_key(tool_name@),
            entry matches Some(e) ==> e@ == self@.entries[tool_name@],
    {
        self.entries.get(&tool_name.to_owned())
    }

    /// The type of each tool by the name that the model calls it by.
    pub fn tool_type_map(&self) -> (types: Table<String, ToolType>)
        ensures
            types@ == tool_types(self@),
    {
        let n: usize = self.entries.len();
        let mut types: Table<String, ToolType> = Table::new();
        let ghost keys = self.entries.keys();
        let mut i: usize = 0;
        while i < n
            invariant
                i <= n == keys.len(),
                keys == self.entries.keys(),
                forall|k: Seq<char>| self.entries@.contains_key(k) <==> keys.contains(k),
                forall|k: Seq<char>| #[trigger]
                    types@.contains_key(k) <==> keys.take(i as int).contains(k),
                forall|k: Seq<char>| #[trigger]
                    types@.contains_key(k) ==> types@[k] == self.entries@[k].tool_type,
            decreases n - i,
        {
            let ghost before = types@;
            let ghost name = keys[i as int];
            types.insert(self.entries.key_at(i).clone(), self.entries.value_at(i).tool_type);
            proof {
                assert(keys.take(i + 1) =~= keys.take(i as int).push(name));
                assert forall|k: Seq<char>| #[trigger]
                    types@.contains_key(k) <==> keys.take(i + 1).contains(k) by {
                    if keys.take(i as int).contains(k) {
                        let j = choose|j: int|
                            0 <= j < keys.take(i as int).len() && keys.take(i as int)[j] == k;
                        assert(keys.take(i + 1)[j] == k);
                    }
                    if k == name {
                        assert(keys.take(i + 1)[i as int] == k);
                    }
                    assert(before.contains_key(k) <==> keys.take(i as int).contains(k));
                }
            }
            i = i + 1;
        }
        proof {
            assert(keys.take(n as int) =~= keys);
            assert(types@ =~= self@.entries.map_values(|entry: ToolEntryView| entry.tool_type));
        }
        if self.tool_search_translation_enabled {
            types.insert("tool_search".to_owned(), ToolType::ToolSearch);
        }
        types
    }

    /// Whether there are no tools.
    pub fn is_empty(&self) -> (yes: bool)
        ensures
            yes == (self@.entries == Map::<Seq<char>, ToolEntryView>::empty()),
    {
        self.entries.is_empty()
    }

    /// The number of tools.
    pub fn len(&self) -> (n: usize)
        ensures
            n == self@.entries.dom().len(),
    {
        self.entries.len()
    }

    /// Whether any tool is one of a server's.
    pub fn contains_mcp_server_label(&self, server_label: &str) -> (yes: bool)
        ensures
            yes == crate::mcp::has_server(self@.mcp_tool_map, server_label@),
    {
        self.mcp_tool_map.contains_server_label(server_label)
    }

    /// Which tool of which server an internal name is.
    pub fn mcp_tool_ref(&self, internal_name: &str) -> (tool: Option<&McpToolRef>)
        ensures
            tool is Some == self@.mcp_tool_map.contains_key(internal_name@),
            tool matches Some(t) ==> t@ == self@.mcp_tool_map[internal_name@],
    {
        self.mcp_tool_map.tool_ref(internal_name)
    }

    /// What each declared server listed.
    pub fn mcp_list_tools_items(&self) -> (items: &Vec<McpListTools>)
        ensures
            crate::data::views(items@) == self@.mcp_list_tools_items,
    {
        &self.mcp_list_tools_items
    }

    /// Takes over how the request uses tool search. Only the function that was made for
    /// an active search becomes one; an ordinary function of that name stays ordinary.
    pub fn classify_tool_search(&mut self, state: &ToolSearchState) -> (out: Result<(), ToolError>)
        ensures
            (final(self)@, crate::error::outcome(out)) == classified(old(self)@, state@),
    {
        self.tool_search_translation_enabled = state.is_active();
        self.withheld_function_names = state.withheld_function_names().copy();
        if !self.tool_search_translation_enabled {
            return Ok(());
        }
        if any_withheld(&self.entries, &self.withheld_function_names) {
            return Err(
                ToolError::Config(
                    "a loaded tool collides with a withheld function name".to_owned(),
                ),
            );
        }
        if self.mcp_tool_map.resolves_call_before_load(
            state.mcp_load_positions(),
            state.unqualified_call_positions(),
        ) {
            return Err(
                ToolError::Config(
                    "request history calls an MCP function before its server definition is loaded".to_owned(),
                ),
            );
        }
        let function = match state.synthetic_function() {
            Some(function) => function,
            None => {
                return Ok(());
            },
        };
        let mut entry = match self.entries.get(&function.name) {
            Some(entry) => entry.copied(),
            None => {
                return Err(
                    ToolError::Config(
                        "prepared tool-search function is missing from the private registry".to_owned(),
                    ),
                );
            },
        };
        if entry.tool_type != ToolType::Function || entry.handler.is_some() {
            return Err(
                ToolError::Config(
                    "prepared tool-search function has invalid private registry ownership".to_owned(),
                ),
            );
        }
        entry.tool_type = ToolType::ToolSearch;
        self.entries.insert(function.name.clone(), entry);
        Ok(())
    }

    /// The functions that are known publicly but not shown to the model.
    pub fn withheld_function_names(&self) -> (names: &Keys<String>)
        ensures
            names@ == self@.withheld_function_names,
    {
        &self.withheld_function_names
    }

    /// Shows the search in a blocking response publicly. A response that is not as it
    /// should be stays as it was.
    pub fn normalize_blocking_response(&self, response: &mut Json) -> (out: Result<(), ToolError>)
        ensures
            (final(response)@, crate::error::outcome(out)) == normalized_response(
                self@,
                old(response)@,
            ),
    {
        if !self.tool_search_translation_enabled {
            return Ok(());
        }
        let mut fields = match &*response {
            Json::Object(fields) => fields.copy(),
            _ => {
                return Ok(());
            },
        };
        let scanned = match fields.get("output") {
            Some(Json::Array(items)) => {
                proof {
                    assert(crate::json::array_view(items@) =~= crate::data::views(items@));
                }
                self.scan_raw(items)
            },
            _ => {
                return Ok(());
            },
        };
        match scanned {
            Ok(items) => {
                proof {
                    assert(crate::json::array_view(items@) =~= crate::data::views(items@));
                }
                fields.set("output", Json::Array(items));
                *response = Json::Object(fields);
                Ok(())
            },
            Err(e) => Err(e),
        }
    }

    fn scan_raw(&self, items: &Vec<Json>) -> (out: Result<Vec<Json>, ToolError>)
        ensures
            match raw_items(
                self@.withheld_function_names,
                crate::data::views(items@),
                items@.len() as int,
            ) {
                Ok(scan) => out matches Ok(shown) && crate::data::views(shown@) == scan.items,
                Err(e) => out matches Err(x) && x@ == e,
            },
    {
        let ghost all = crate::data::views(items@);
        let ghost withheld = self@.withheld_function_names;
        let mut shown: Vec<Json> = Vec::new();
        let mut ids: Keys<String> = Keys::new();
        let mut searched = false;
        let mut i: usize = 0;
        proof {
            assert(crate::data::views(shown@) =~= Seq::empty());
        }
        while i < items.len()
            invariant
                i <= items@.len(),
                all == crate::data::views(items@),
                withheld == self@.withheld_function_names,
                raw_items(withheld, all, i as int) == Ok::<_, ToolErrorView>(
                    Scan { searched, ids: ids@, items: crate::data::views(shown@) },
                ),
            decreases items@.len() - i,
        {
            proof {
                assert(all[i as int] == items@[i as int]@);
            }
            let ghost before = Scan { searched, ids: ids@, items: crate::data::views(shown@) };
            match self.show_raw(&items[i], searched, &mut ids) {
                Ok((item, found)) => {
                    proof {
                        crate::data::views_push(shown@, item);
                    }
                    shown.push(item);
                    searched = searched || found;
                },
                Err(e) => {
                    proof {
                        raw_items_stop(withheld, all, i + 1, items@.len() as int);
                    }
                    return Err(e);
                },
            }
            i = i + 1;
        }
        Ok(shown)
    }

    fn show_raw(&self, item: &Json, searched: bool, ids: &mut Keys<String>) -> (out: Result<
        (Json, bool),
        ToolError,
    >)
        ensures
            forall|items: Seq<JsonView>|
                match #[trigger] raw_item_step(
                    self@.withheld_function_names,
                    Scan { searched, ids: old(ids)@, items },
                    item@,
                ) {
                    Ok(after) => out matches Ok(x) && after == (Scan {
                        searched: searched || x.1,
                        ids: final(ids)@,
                        items: items.push(x.0@),
                    }),
                    Err(e) => out matches Err(x) && x@ == e,
                },
    {
        let fields = match item {
            Json::Object(fields) => fields,
            _ => {
                return Ok((item.copy(), false));
            },
        };
        let name = fields.get_str("name");
        if let Some(name) = name {
            if self.withheld_function_names.contains(&name.to_owned()) {
                return Err(invalid_upstream_withheld_function_call());
            }
        }
        if fields.field_is("name", "tool_search") {
            if searched {
                return Err(invalid_upstream_search_call());
            }
            return match public_output_item_from_raw(fields) {
                Err(e) => Err(e),
                Ok(call) => {
                    let id = call.id.clone();
                    let shown = OutputItem::ToolSearchCall(call).to_json();
                    match take_id(ids, id) {
                        Ok(_) => Ok((shown, true)),
                        Err(e) => Err(e),
                    }
                },
            };
        }
        match take_id(ids, non_blank_text(fields.get_str("id"))) {
            Ok(_) => Ok((item.copy(), false)),
            Err(e) => Err(e),
        }
    }

    /// Shows a finished output to the client: its search, and calls of members by the
    /// members' own names. An output that is not as it should be stays as it was.
    pub fn restore_final_payload_output(&self, output: &mut Vec<OutputItem>) -> (out: Result<
        (),
        ToolError,
    >)
        ensures
            (crate::data::views(final(output)@), crate::error::outcome(out)) == restored_output(
                self@,
                crate::data::views(old(output)@),
            ),
    {
        let map = match &self.namespace_map {
            Some(map) => Some(map),
            None => None,
        };
        if self.tool_search_translation_enabled {
            match self.scan_output(&*output) {
                Ok(shown) => {
                    *output = CodexNamespaceHandler.restore_output_items(&shown, map);
                },
                Err(e) => {
                    return Err(e);
                },
            }
        } else {
            let restored = CodexNamespaceHandler.restore_output_items(&*output, map);
            *output = restored;
        }
        Ok(())
    }

    fn scan_output(&self, items: &Vec<OutputItem>) -> (out: Result<Vec<OutputItem>, ToolError>)
        ensures
            match output_items(
                self@.withheld_function_names,
                crate::data::views(items@),
                items@.len() as int,
            ) {
                Ok(scan) => out matches Ok(shown) && crate::data::views(shown@) == scan.items,
                Err(e) => out matches Err(x) && x@ == e,
            },
    {
        let ghost all = crate::data::views(items@);
        let ghost withheld = self@.withheld_function_names;
        let mut shown: Vec<OutputItem> = Vec::new();
        let mut ids: Keys<String> = Keys::new();
        let mut searched = false;
        let mut i: usize = 0;
        proof {
            assert(crate::data::views(shown@) =~= Seq::empty());
        }
        while i < items.len()
            invariant
                i <= items@.len(),
                all == crate::data::views(items@),
                withheld == self@.withheld_function_names,
                output_items(withheld, all, i as int) == Ok::<_, ToolErrorView>(
                    Scan { searched, ids: ids@, items: crate::data::views(shown@) },
                ),
            decreases items@.len() - i,
        {
            proof {
                assert(all[i as int] == items@[i as int]@);
            }
            match self.show_item(&items[i], searched, &mut ids) {
                Ok((item, found)) => {
                    proof {
                        crate::data::views_push(shown@, item);
                    }
                    shown.push(item);
                    searched = searched || found;
                },
                Err(e) => {
                    proof {
                        output_items_stop(withheld, all, i + 1, items@.len() as int);
                    }
                    return Err(e);
                },
            }
            i = i + 1;
        }
        Ok(shown)
    }

    fn show_item(&self, item: &OutputItem, searched: bool, ids: &mut Keys<String>) -> (out: Result<
        (OutputItem, bool),
        ToolError,
    >)
        ensures
            forall|items: Seq<OutputItemView>|
                match #[trigger] output_item_step(
                    self@.withheld_function_names,
                    Scan { searched, ids: old(ids)@, items },
                    item@,
                ) {
                    Ok(after) => out matches Ok(x) && after == (Scan {
                        searched: searched || x.1,
                        ids: final(ids)@,
                        items: items.push(x.0@),
                    }),
                    Err(e) => out matches Err(x) && x@ == e,
                },
    {
        if let OutputItem::FunctionCall(call) = item {
            if self.withheld_function_names.contains(&call.name) {
                return Err(invalid_upstream_withheld_function_call());
            }
            if same_text(call.name.as_str(), "tool_search") {
                if searched || call.status != MessageStatus::Completed || call.namespace.is_some() {
                    return Err(invalid_upstream_search_call());
                }
                return match public_output_item(
                    call.id.as_str(),
                    call.call_id.as_str(),
                    call.arguments.as_str(),
                ) {
                    Err(e) => Err(e),
                    Ok(search) => {
                        let shown = OutputItem::ToolSearchCall(search);
                        let id = item_id(&shown);
                        match take_id(ids, id) {
                            Ok(_) => Ok((shown, true)),
                            Err(e) => Err(e),
                        }
                    },
                };
            }
        }
        match take_id(ids, item_id(item)) {
            Ok(_) => Ok((item.copied(), false)),
            Err(e) => Err(e),
        }
    }

    /// Shows an event of a stream to the client, and says whether anything changed.
    pub fn restore_stream_event_wire(&self, wire: &mut WireEvent) -> (changed: bool)
        ensures
            final(wire)@ == (WireEventView {
                rest: event_fields(self@, old(wire)@.rest),
                ..old(wire)@
            }),
            changed == (final(wire)@ != old(wire)@),
    {
        let before = wire.copied();
        let customs = match &self.custom_tool_map {
            Some(map) => Some(map),
            None => None,
        };
        let map = match &self.namespace_map {
            Some(map) => Some(map),
            None => None,
        };
        let _ = CustomHandler::restore_response_wire(wire, customs);
        let _ = CodexNamespaceHandler.restore_response_wire(wire, map);
        !wire.same(&before)
    }

    /// Whether a name is that of a tool that the gateway runs.
    pub fn is_gateway_owned_name(&self, name: &str) -> (yes: bool)
        ensures
            yes == gateway_owned_name(self@, name@),
    {
        match self.entries.get(&name.to_owned()) {
            Some(entry) => entry.tool_type.is_gateway_owned(),
            None => false,
        }
    }

    /// Those of the calls that the gateway runs.
    pub fn gateway_owned<'a>(&self, calls: &'a Vec<FunctionToolCall>) -> (owned: Vec<
        &'a FunctionToolCall,
    >)
        ensures
            crate::data::views(owned@) == owned_calls(
                self@,
                crate::data::views(calls@),
                true,
                calls@.len() as int,
            ),
    {
        self.pick(calls, true)
    }

    /// Those of the calls that the client runs: of its functions, of its namespaces'
    /// members, and of names that are not known.
    pub fn client_owned<'a>(&self, calls: &'a Vec<FunctionToolCall>) -> (owned: Vec<
        &'a FunctionToolCall,
    >)
        ensures
            crate::data::views(owned@) == owned_calls(
                self@,
                crate::data::views(calls@),
                false,
                calls@.len() as int,
            ),
    {
        self.pick(calls, false)
    }

    fn pick<'a>(&self, calls: &'a Vec<FunctionToolCall>, by_gateway: bool) -> (owned: Vec<
        &'a FunctionToolCall,
    >)
        ensures
            crate::data::views(owned@) == owned_calls(
                self@,
                crate::data::views(calls@),
                by_gateway,
                calls@.len() as int,
            ),
    {
        let ghost all = crate::data::views(calls@);
        let mut owned: Vec<&'a FunctionToolCall> = Vec::new();
        let mut i: usize = 0;
        proof {
            assert(crate::data::views(owned@) =~= Seq::empty());
        }
        while i < calls.len()
            invariant
                i <= calls@.len(),
                all == crate::data::views(calls@),
                crate::data::views(owned@) == owned_calls(self@, all, by_gateway, i as int),
            decreases calls@.len() - i,
        {
            proof {
                assert(all[i as int] == calls@[i as int]@);
            }
            if self.is_gateway_owned_name(calls[i].name.as_str()) == by_gateway {
                let call: &'a FunctionToolCall = &calls[i];
                proof {
                    crate::data::views_push(owned@, call);
                }
                owned.push(call);
            }
            i = i + 1;
        }
        owned
    }

    /// How a call is run by the gateway, if it is.
    pub fn dispatch(&self, call: &FunctionToolCall) -> (out: Option<GatewayDispatch>)
        ensures
            crate::data::opt_view(out) == dispatch_of(self@, call@),
    {
        let entry = match self.entries.get(&call.name) {
            Some(entry) => entry,
            None => {
                return None;
            },
        };
        match &entry.handler {
            Some(handler) => Some(
                GatewayDispatch {
                    tool_type: entry.tool_type,
                    handler: handler.copied(),
                    config: entry.config.copy(),
                },
            ),
            None => None,
        }
    }
}

fn take_id(ids: &mut Keys<String>, id: String) -> (out: Result<(), ToolError>)
    ensures
        if id@.len() > 0 && old(ids)@.contains(id@) {
            &&& out matches Err(e)
            &&& e@ == crate::error::invalid_search_call()
        } else {
            &&& out is Ok
            &&& final(ids)@ == (if id@.len() > 0 {
                old(ids)@.insert(id@)
            } else {
                old(ids)@
            })
        },
{
    if !id.as_str().is_empty() {
        if !ids.insert(id) {
            return Err(invalid_upstream_search_call());
        }
    }
    Ok(())
}

fn non_blank_text(text: Option<&str>) -> (out: String)
    ensures
        out@ == non_blank_or_empty(crate::json::str_view(text)),
{
    if let Some(text) = text {
        if !is_blank(text) {
            return text.to_owned();
        }
    }
    String::new()
}

fn item_id(item: &OutputItem) -> (id: String)
    ensures
        id@ == shown_id(item@),
{
    match item.to_json() {
        Json::Object(fields) => non_blank_text(fields.get_str("id")),
        _ => String::new(),
    }
}

impl Default for ToolRegistry {
    fn default() -> (registry: ToolRegistry)
        ensures
            registry@ == (ToolRegistryView {
                entries: Map::empty(),
                tool_search_translation_enabled: false,
                withheld_function_names: Set::empty(),
                namespace_map: None,
                custom_tool_map: None,
                mcp_tool_map: Map::empty(),
                mcp_list_tools_items: Seq::empty(),
            }),
    {
        ToolRegistry::new()
    }
}

/// Each call is either the gateway's or the client's, and none is lost.
pub proof fn calls_are_shared_out(registry: ToolRegistryView, calls: Seq<FunctionToolCallView>)
    ensures
        owned_calls(registry, calls, true, calls.len() as int).len() + owned_calls(
            registry,
            calls,
            false,
            calls.len() as int,
        ).len() == calls.len(),
        forall|i: int|
            0 <= i < calls.len() ==> owned_calls(
                registry,
                calls,
                gateway_owned_name(registry, (#[trigger] calls[i]).name),
                calls.len() as int,
            ).contains(calls[i]),
{
    shared_out_so_far(registry, calls, calls.len() as int);
}

proof fn shared_out_so_far(registry: ToolRegistryView, calls: Seq<FunctionToolCallView>, n: int)
    requires
        0 <= n <= calls.len(),
    ensures
        owned_calls(registry, calls, true, n).len() + owned_calls(registry, calls, false, n).len()
            == n,
        forall|i: int|
            0 <= i < n ==> owned_calls(
                registry,
                calls,
                gateway_owned_name(registry, (#[trigger] calls[i]).name),
                n,
            ).contains(calls[i]),
    decreases n,
{
    if n > 0 {
        shared_out_so_far(registry, calls, n - 1);
        assert forall|i: int| 0 <= i < n implies owned_calls(
            registry,
            calls,
            gateway_owned_name(registry, (#[trigger] calls[i]).name),
            n,
        ).contains(calls[i]) by {
            let by = gateway_owned_name(registry, calls[i].name);
            let before = owned_calls(registry, calls, by, n - 1);
            let after = owned_calls(registry, calls, by, n);
            if i == n - 1 {
                assert(after == before.push(calls[i]));
                assert(after[before.len() as int] == calls[i]);
            } else {
                assert(before.contains(calls[i]));
                let j = choose|j: int| 0 <= j < before.len() && before[j] == calls[i];
                assert(after[j] == calls[i]);
            }
        }
    }
}

/// A response or an output that is refused stays as it was.
pub proof fn refusals_change_nothing(
    registry: ToolRegistryView,
    response: JsonView,
    output: Seq<OutputItemView>,
)
    ensures
        normalized_response(registry, response).1 is Err ==> normalized_response(
            registry,
            response,
        ).0 == response,
        restored_output(registry, output).1 is Err ==> restored_output(registry, output).0
            == output,
{
}

/// An output with a call of a withheld function, or with a search that is unfinished or
/// qualified, is refused.
pub proof fn withheld_calls_never_pass(
    registry: ToolRegistryView,
    output: Seq<OutputItemView>,
    i: int,
)
    requires
        registry.tool_search_translation_enabled,
        0 <= i < output.len(),
        output[i] matches OutputItemView::FunctionCall(call) && (
        registry.withheld_function_names.contains(call.name) || (call.name == "tool_search"@ && (
        call.status != MessageStatus::Completed || call.namespace is Some))),
    ensures
        restored_output(registry, output).1 is Err,
{
    if output_items(registry.withheld_function_names, output, i) is Err {
        output_items_stop(
            registry.withheld_function_names,
            output,
            i,
            output.len() as int,
        );
    } else {
        assert(output_items(registry.withheld_function_names, output, i + 1) is Err);
        output_items_stop(
            registry.withheld_function_names,
            output,
            i + 1,
            output.len() as int,
        );
    }
}

/// Whether all entries are there afterwards as they were before.
spec fn kept(before: Map<Seq<char>, ToolEntryView>, after: Map<Seq<char>, ToolEntryView>) -> bool {
    forall|name: Seq<char>|
        #![trigger before.contains_key(name)]
        #![trigger after.contains_key(name)]
        #![trigger after[name]]
        before.contains_key(name) ==> after.contains_key(name) && after[name] == before[name]
}

/// Whether what was registered stays registered, with the same handler for web searches.
spec fn only_grows(before: BuildView, after: BuildView) -> bool {
    &&& kept(before.entries, after.entries)
    &&& before.executors.web_search == after.executors.web_search
}

proof fn listed_only_adds(
    entries: Map<Seq<char>, ToolEntryView>,
    map: Map<Seq<char>, McpToolRefView>,
    handlers: Seq<McpDiscoveredHandlerView>,
    n: int,
)
    requires
        0 <= n <= handlers.len(),
    ensures
        with_listed(entries, map, handlers, n) matches Ok((after, tools)) ==> kept(
            entries,
            after,
        ) && forall|i: int|
            #![trigger handlers[i]]
            0 <= i < n ==> after.contains_key(handlers[i].param.internal_name)
                && after[handlers[i].param.internal_name] == mcp_entry(handlers[i]),
    decreases n,
{
    if n > 0 {
        listed_only_adds(entries, map, handlers, n - 1);
    }
}

proof fn members_only_add(
    entries: Map<Seq<char>, ToolEntryView>,
    namespace: CodexNamespaceToolParamView,
    n: int,
)
    requires
        0 <= n <= namespace.tools.len(),
    ensures
        with_members(entries, namespace, n) matches Ok(after) ==> kept(entries, after)
            && forall|i: int|
            0 <= i < n ==> (#[trigger] namespace.tools[i] matches CodexNamespaceMemberView::Function(
                f,
            ) ==> after.contains_key(f.name) && after[f.name] == member_entry(namespace)),
    decreases n,
{
    if n > 0 {
        members_only_add(entries, namespace, n - 1);
    }
}

proof fn declaration_only_adds(before: BuildView, tool: ResponsesToolView, at: int, fresh: Seq<char>)
    requires
        declaration_step(before, tool, at, fresh).1 is None,
    ensures
        only_grows(before, declaration_step(before, tool, at, fresh).0),
{
    match tool {
        ResponsesToolView::Mcp(p) => {
            let (executors, found) = crate::executors::server_tools(before.executors, p, fresh);
            if let Ok(set) = found {
                listed_only_adds(
                    before.entries,
                    before.mcp_tool_map,
                    set.discovered_handlers,
                    set.discovered_handlers.len() as int,
                );
            }
        },
        ResponsesToolView::Namespace(n) => {
            members_only_add(before.entries, n, n.tools.len() as int);
        },
        _ => {},
    }
}

proof fn declarations_only_add(
    start: BuildView,
    resolved: Seq<ResponsesToolView>,
    fresh: Seq<Seq<char>>,
    i: int,
    n: int,
)
    requires
        0 <= i <= n,
        declared_so_far(start, resolved, fresh, n).1 is None,
    ensures
        declared_so_far(start, resolved, fresh, i).1 is None,
        only_grows(
            declared_so_far(start, resolved, fresh, i).0,
            declared_so_far(start, resolved, fresh, n).0,
        ),
    decreases n - i,
{
    if i < n {
        declarations_only_add(start, resolved, fresh, i, n - 1);
        declaration_only_adds(
            declared_so_far(start, resolved, fresh, n - 1).0,
            resolved[n - 1],
            n - 1,
            fresh_at(fresh, n - 1),
        );
    }
}

/// In a registry that was built, every declared tool is found under the name that the model
/// calls it by, and every function of a declared namespace under its own.
pub proof fn declared_tools_are_registered(
    tools: Seq<ResponsesToolView>,
    executors: GatewayExecutorsView,
    fresh: Seq<Seq<char>>,
    registry: ToolRegistryView,
    i: int,
)
    requires
        registry_of(tools, executors, fresh).2 == Ok::<_, ToolErrorView>(registry),
        0 <= i < tools.len(),
    ensures
        single_entry(crate::codex::renamed_tools(tools)[i], executors.web_search) matches Some(
            (name, entry),
        ) ==> registry.entries.contains_key(name) && registry.entries[name] == entry,
        crate::codex::renamed_tools(tools)[i] matches ResponsesToolView::Namespace(n) ==> forall|
            j: int,
        |
            0 <= j < n.tools.len() ==> (#[trigger] n.tools[j] matches CodexNamespaceMemberView::Function(
                f,
            ) ==> registry.entries.contains_key(f.name) && registry.entries[f.name]
                == member_entry(n)),
{
    let resolved = crate::codex::renamed_tools(tools);
    let start = BuildView {
        entries: Map::empty(),
        mcp_tool_map: Map::empty(),
        mcp_list_tools_items: Seq::empty(),
        executors,
        tools,
    };
    let n = tools.len() as int;
    declarations_only_add(start, resolved, fresh, i, n);
    declarations_only_add(start, resolved, fresh, 0, i);
    declarations_only_add(start, resolved, fresh, i + 1, n);
    let before = declared_so_far(start, resolved, fresh, i).0;
    let after = declared_so_far(start, resolved, fresh, i + 1).0;
    match resolved[i] {
        ResponsesToolView::Namespace(namespace) => {
            members_only_add(before.entries, namespace, namespace.tools.len() as int);
        },
        _ => {},
    }
    assert(kept(after.entries, registry.entries));
    if let Some((name, entry)) = single_entry(resolved[i], executors.web_search) {
        assert(after.entries.contains_key(name) && after.entries[name] == entry);
    }
}

/// Where a request uses no tool search, an ordinary function stays what it is, whatever it is
/// called.
pub proof fn functions_stay_without_a_search(
    registry: ToolRegistryView,
    state: ToolSearchStateView,
)
    requires
        !state.active,
    ensures
        classified(registry, state).1 is Ok,
        classified(registry, state).0.entries == registry.entries,
        !classified(registry, state).0.tool_search_translation_enabled,
{
}

} // verus!
