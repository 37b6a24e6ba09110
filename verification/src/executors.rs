//! The executors that the gateway has: one for web searches, and the tools of the MCP
//! servers that are known.
use vstd::prelude::*;

use crate::data::{copy_vec, same_vec, Data};
use crate::error::ToolError;
#[allow(unused_imports)]
use crate::error::ToolErrorView;
use crate::ids::fresh_uuid;
use crate::mcp::{allows, McpDiscoveredHandler, McpHandler, McpServerToolSet};
#[allow(unused_imports)]
use crate::mcp::{McpDiscoveredHandlerView, McpHandlerView, McpServerToolSetView};
use crate::tables::Table;
use crate::text::{concat, concat3, decimal, same_text, trim, yes_str};
use crate::tools::{McpTool, McpToolParam, ToolType};
#[allow(unused_imports)]
use crate::tools::{McpToolParamView, McpToolView};
use crate::web_search::WebSearchHandler;
#[allow(unused_imports)]
use crate::web_search::WebSearchHandlerView;

verus! {

/// What runs a tool of the gateway.
#[derive(Clone, PartialEq)]
pub enum GatewayHandler {
    Mcp(McpHandler),
    WebSearch(WebSearchHandler),
}

/// The view of a [`GatewayHandler`].
#[verifier::ext_equal]
pub enum GatewayHandlerView {
    Mcp(McpHandlerView),
    WebSearch(WebSearchHandlerView),
}

impl View for GatewayHandler {
    type V = GatewayHandlerView;

    open spec fn view(&self) -> GatewayHandlerView {
        match *self {
            GatewayHandler::Mcp(x) => GatewayHandlerView::Mcp(x@),
            GatewayHandler::WebSearch(x) => GatewayHandlerView::WebSearch(x@),
        }
    }
}

impl Data for GatewayHandler {
    fn copied(&self) -> (out: GatewayHandler) {
        match self {
            GatewayHandler::Mcp(x) => GatewayHandler::Mcp(x.copied()),
            GatewayHandler::WebSearch(x) => GatewayHandler::WebSearch(x.copied()),
        }
    }

    fn same(&self, other: &GatewayHandler) -> (yes: bool) {
        match (self, other) {
            (GatewayHandler::Mcp(a), GatewayHandler::Mcp(b)) => a.same(b),
            (GatewayHandler::WebSearch(a), GatewayHandler::WebSearch(b)) => a.same(b),
            _ => false,
        }
    }
}

/// The tools that a server is known to have.
#[derive(Debug, Clone, PartialEq)]
pub struct HandlerList {
    pub handlers: Vec<McpDiscoveredHandler>,
}

/// The view of a [`HandlerList`].
#[verifier::ext_equal]
pub struct HandlerListView {
    pub handlers: Seq<McpDiscoveredHandlerView>,
}

impl View for HandlerList {
    type V = HandlerListView;

    open spec fn view(&self) -> HandlerListView {
        HandlerListView {
            handlers: crate::data::views(self.handlers@),
        }
    }
}

impl Data for HandlerList {
    fn copied(&self) -> (out: HandlerList) {
        HandlerList {
            handlers: copy_vec(&self.handlers),
        }
    }

    fn same(&self, other: &HandlerList) -> (yes: bool) {
        same_vec(&self.handlers, &other.handlers)
    }
}

/// What came of connecting to an MCP server.
#[derive(Debug, Clone, PartialEq)]
pub enum McpConnection {
    /// It listed its tools through the client with this name.
    Listed { client: String, tools: Vec<McpTool> },
    /// It could not be reached.
    Failed { reason: String },
}

/// The view of a [`McpConnection`].
#[verifier::ext_equal]
pub enum McpConnectionView {
    Listed { client: Seq<char>, tools: Seq<McpToolView> },
    Failed { reason: Seq<char> },
}

impl View for McpConnection {
    type V = McpConnectionView;

    open spec fn view(&self) -> McpConnectionView {
        match *self {
            McpConnection::Listed { client, tools } => McpConnectionView::Listed {
                client: client@,
                tools: crate::data::views(tools@),
            },
            McpConnection::Failed { reason } => McpConnectionView::Failed {
                reason: reason@,
            },
        }
    }
}

impl Data for McpConnection {
    fn copied(&self) -> (out: McpConnection) {
        match self {
            McpConnection::Listed { client, tools } => McpConnection::Listed {
                client: client.copied(),
                tools: copy_vec(tools),
            },
            McpConnection::Failed { reason } => McpConnection::Failed {
                reason: reason.copied(),
            },
        }
    }

    fn same(&self, other: &McpConnection) -> (yes: bool) {
        match (self, other) {
            (
                McpConnection::Listed { client: a_client, tools: a_tools },
                McpConnection::Listed { client: b_client, tools: b_tools },
            ) => {
                a_client.same(b_client)
                && same_vec(a_tools, b_tools)
            },
            (
                McpConnection::Failed { reason: a_reason },
                McpConnection::Failed { reason: b_reason },
            ) => {
                a_reason.same(b_reason)
            },
            _ => false,
        }
    }
}

/// What is added to the gateway's executors.
#[derive(Clone, PartialEq)]
pub enum GatewayExecutorRegistration {
    Shared(GatewayHandler),
    Mcp { server_label: String, handlers: Vec<McpDiscoveredHandler> },
}

/// The view of a [`GatewayExecutorRegistration`].
#[verifier::ext_equal]
pub enum GatewayExecutorRegistrationView {
    Shared(GatewayHandlerView),
    Mcp { server_label: Seq<char>, handlers: Seq<McpDiscoveredHandlerView> },
}

impl View for GatewayExecutorRegistration {
    type V = GatewayExecutorRegistrationView;

    open spec fn view(&self) -> GatewayExecutorRegistrationView {
        match *self {
            GatewayExecutorRegistration::Shared(x) => GatewayExecutorRegistrationView::Shared(x@),
            GatewayExecutorRegistration::Mcp {
                server_label,
                handlers,
            } => GatewayExecutorRegistrationView::Mcp {
                server_label: server_label@,
                handlers: crate::data::views(handlers@),
            },
        }
    }
}

impl Data for GatewayExecutorRegistration {
    fn copied(&self) -> (out: GatewayExecutorRegistration) {
        match self {
            GatewayExecutorRegistration::Shared(x) => GatewayExecutorRegistration::Shared(x.copied()),
            GatewayExecutorRegistration::Mcp {
                server_label,
                handlers,
            } => GatewayExecutorRegistration::Mcp {
                server_label: server_label.copied(),
                handlers: copy_vec(handlers),
            },
        }
    }

    fn same(&self, other: &GatewayExecutorRegistration) -> (yes: bool) {
        match (self, other) {
            (
                GatewayExecutorRegistration::Shared(a),
                GatewayExecutorRegistration::Shared(b),
            ) => a.same(b),
            (
                GatewayExecutorRegistration::Mcp {
                    server_label: a_server_label,
                    handlers: a_handlers,
                },
                GatewayExecutorRegistration::Mcp {
                    server_label: b_server_label,
                    handlers: b_handlers,
                },
            ) => {
                a_server_label.same(b_server_label)
                && same_vec(a_handlers, b_handlers)
            },
            _ => false,
        }
    }
}

impl GatewayHandler {
    /// The type of the tools that this handler runs.
    pub fn tool_type(&self) -> (tool_type: ToolType)
        ensures
            tool_type == (match self@ {
                GatewayHandlerView::Mcp(_) => ToolType::Mcp,
                GatewayHandlerView::WebSearch(_) => ToolType::WebSearch,
            }),
    {
        match self {
            GatewayHandler::Mcp(handler) => handler.tool_type(),
            GatewayHandler::WebSearch(handler) => handler.tool_type(),
        }
    }
}

/// The gateway's executors. Those for web searches are shared by all requests; the tools
/// of an MCP server are known once they were registered or listed.
pub struct GatewayExecutors {
    pub mcp: Table<String, HandlerList>,
    pub web_search: Option<WebSearchHandler>,
    pub connections: Table<String, McpConnection>,
}

/// The view of a [`GatewayExecutors`].
#[verifier::ext_equal]
pub struct GatewayExecutorsView {
    pub mcp: Map<Seq<char>, HandlerListView>,
    pub web_search: Option<WebSearchHandlerView>,
    pub connections: Map<Seq<char>, McpConnectionView>,
}

impl View for GatewayExecutors {
    type V = GatewayExecutorsView;

    open spec fn view(&self) -> GatewayExecutorsView {
        GatewayExecutorsView {
            mcp: self.mcp@,
            web_search: crate::data::opt_view(self.web_search),
            connections: self.connections@,
        }
    }
}

/// The executors after something was added. There is one place for web searches; tools of
/// MCP servers are added with the server, and none where there are none.
pub open spec fn registered(
    start: GatewayExecutorsView,
    added: GatewayExecutorRegistrationView,
) -> GatewayExecutorsView {
    match added {
        GatewayExecutorRegistrationView::Shared(
            GatewayHandlerView::WebSearch(handler),
        ) => GatewayExecutorsView {
            web_search: Some(handler),
            ..start
        },
        GatewayExecutorRegistrationView::Shared(GatewayHandlerView::Mcp(_)) => start,
        GatewayExecutorRegistrationView::Mcp { server_label, handlers } => if handlers.len() == 0 {
            start
        } else {
            GatewayExecutorsView {
                mcp: start.mcp.insert(server_label, HandlerListView { handlers }),
                ..start
            }
        },
    }
}

/// The outcome of checking that a declaration asks for nothing that is not supported.
pub open spec fn options_valid(param: McpToolParamView) -> Result<(), ToolErrorView> {
    if param.connector_id is Some {
        Err(
            ToolErrorView::Config(
                "MCP connector_id is not supported; configure server_url instead"@,
            ),
        )
    } else if param.require_approval != Some("never"@) {
        Err(
            ToolErrorView::Config(
                "MCP require_approval must be explicitly set to 'never'; approval gating is not yet supported"@,
            ),
        )
    } else {
        Ok(())
    }
}

/// Refuses a declaration that asks for what is not supported.
pub fn validate_mcp_execution_options(param: &McpToolParam) -> (out: Result<(), ToolError>)
    ensures
        crate::error::outcome(out) == options_valid(param@),
{
    if param.connector_id.is_some() {
        return Err(
            ToolError::Config(
                "MCP connector_id is not supported; configure server_url instead".to_owned(),
            ),
        );
    }
    let never = match &param.require_approval {
        Some(policy) => same_text(policy.as_str(), "never"),
        None => false,
    };
    if !never {
        return Err(
            ToolError::Config(
                "MCP require_approval must be explicitly set to 'never'; approval gating is not yet supported".to_owned(),
            ),
        );
    }
    Ok(())
}

/// Those of the first `n` handlers whose tools are allowed.
pub open spec fn allowed_handlers(
    handlers: Seq<McpDiscoveredHandlerView>,
    allowed: Option<Seq<Seq<char>>>,
    n: int,
) -> Seq<McpDiscoveredHandlerView>
    decreases n,
{
    if n <= 0 {
        Seq::empty()
    } else {
        let before = allowed_handlers(handlers, allowed, n - 1);
        if crate::mcp::is_allowed(allowed, handlers[n - 1].param.tool_name) {
            before.push(handlers[n - 1])
        } else {
            before
        }
    }
}

/// Those of a server's handlers whose tools are allowed.
pub fn filter_allowed_mcp_handlers(
    handlers: &Vec<McpDiscoveredHandler>,
    allowed: &Option<Vec<String>>,
) -> (out: Vec<
    McpDiscoveredHandler,
>)
    ensures
        crate::data::views(out@) == allowed_handlers(
            crate::data::views(handlers@),
            crate::data::opt_views(*allowed),
            handlers@.len() as int,
        ),
{
    let mut out: Vec<McpDiscoveredHandler> = Vec::new();
    let ghost all = crate::data::views(handlers@);
    let ghost permitted = crate::data::opt_views(*allowed);
    let mut i: usize = 0;
    proof {
        assert(crate::data::views(out@) =~= Seq::empty());
    }
    while i < handlers.len()
        invariant
            i <= handlers@.len(),
            all == crate::data::views(handlers@),
            permitted == crate::data::opt_views(*allowed),
            crate::data::views(out@) == allowed_handlers(all, permitted, i as int),
        decreases handlers@.len() - i,
    {
        proof {
            assert(all[i as int] == handlers@[i as int]@);
        }
        if allows(allowed, handlers[i].param.tool_name.as_str()) {
            let handler = handlers[i].copied();
            proof {
                crate::data::views_push(out@, handler);
            }
            out.push(handler);
        }
        i = i + 1;
    }
    out
}

/// No tool that a request does not allow is ever handed out, and each that it allows is.
pub proof fn only_allowed_tools_are_handed_out(
    handlers: Seq<McpDiscoveredHandlerView>,
    allowed: Option<Seq<Seq<char>>>,
    handler: McpDiscoveredHandlerView,
)
    ensures
        allowed_handlers(handlers, allowed, handlers.len() as int).contains(handler) <==> (
        handlers.contains(handler) && crate::mcp::is_allowed(allowed, handler.param.tool_name)),
{
    allowed_so_far(handlers, allowed, handler, handlers.len() as int);
    assert(handlers.take(handlers.len() as int) =~= handlers);
}

proof fn allowed_so_far(
    handlers: Seq<McpDiscoveredHandlerView>,
    allowed: Option<Seq<Seq<char>>>,
    handler: McpDiscoveredHandlerView,
    n: int,
)
    requires
        0 <= n <= handlers.len(),
    ensures
        allowed_handlers(handlers, allowed, n).contains(handler) <==> (handlers.take(n).contains(
            handler,
        ) && crate::mcp::is_allowed(allowed, handler.param.tool_name)),
    decreases n,
{
    if n > 0 {
        allowed_so_far(handlers, allowed, handler, n - 1);
        let before = allowed_handlers(handlers, allowed, n - 1);
        let last = handlers[n - 1];
        assert(handlers.take(n) =~= handlers.take(n - 1).push(last));
        contains_after_push(handlers.take(n - 1), last, handler);
        contains_after_push(before, last, handler);
    }
}

proof fn contains_after_push<T>(s: Seq<T>, last: T, t: T)
    ensures
        s.push(last).contains(t) <==> (s.contains(t) || last == t),
{
    if s.contains(t) {
        let j = choose|j: int| 0 <= j < s.len() && s[j] == t;
        assert(s.push(last)[j] == t);
    }
    if last == t {
        assert(s.push(last)[s.len() as int] == t);
    }
}

/// The error of a server with no tool left that the request allows.
pub open spec fn no_tools(server_label: Seq<char>) -> ToolErrorView {
    ToolErrorView::Config(
        "MCP server '"@ + server_label + "' has an empty final allowed tool set"@,
    )
}

fn require_non_empty_mcp_handlers(
    server_label: &str,
    handlers: Vec<McpDiscoveredHandler>,
) -> (out: Result<
    Vec<McpDiscoveredHandler>,
    ToolError,
>)
    ensures
        handlers@.len() == 0 ==> (out matches Err(e) && e@ == no_tools(server_label@)),
        handlers@.len() > 0 ==> out == Ok::<Vec<McpDiscoveredHandler>, ToolError>(handlers),
{
    if handlers.len() == 0 {
        return Err(
            ToolError::Config(
                concat3("MCP server '", server_label, "' has an empty final allowed tool set"),
            ),
        );
    }
    Ok(handlers)
}

/// The executors after a declared server was looked up, and its tools. A server that is
/// known keeps its tools; of one that was connected to, those that the request allows
/// become known.
pub open spec fn server_tools(
    start: GatewayExecutorsView,
    param: McpToolParamView,
    fresh: Seq<char>,
) -> (GatewayExecutorsView, Result<McpServerToolSetView, ToolErrorView>) {
    let label = crate::text::trim_text(param.server_label);
    match options_valid(param) {
        Err(e) => (start, Err(e)),
        Ok(_) => if label.len() == 0 {
            (
                start,
                Err(
                    ToolErrorView::Config("MCP declaration requires a non-empty server_label"@),
                ),
            )
        } else if start.mcp.contains_key(label) {
            let known = start.mcp[label].handlers;
            let handlers = allowed_handlers(known, param.allowed_tools, known.len() as int);
            (
                start,
                if handlers.len() == 0 {
                    Err(no_tools(label))
                } else {
                    Ok(crate::mcp::tool_set(label, handlers, fresh))
                },
            )
        } else if !start.connections.contains_key(label) {
            (
                start,
                Err(
                    ToolErrorView::Config(
                        "MCP server '"@ + label
                            + "' has no valid request-declared configuration"@,
                    ),
                ),
            )
        } else {
            match start.connections[label] {
                McpConnectionView::Failed { reason } => (
                    start,
                    Err(
                        ToolErrorView::Execution(
                            "MCP server '"@ + label + "' failed to connect: "@ + reason,
                        ),
                    ),
                ),
                McpConnectionView::Listed { client, tools } => {
                    let handlers = crate::mcp::discovered(
                        label,
                        client,
                        tools,
                        param.allowed_tools,
                        tools.len() as int,
                    ).1;
                    if handlers.len() == 0 {
                        (start, Err(no_tools(label)))
                    } else {
                        (
                            GatewayExecutorsView {
                                mcp: start.mcp.insert(label, HandlerListView { handlers }),
                                ..start
                            },
                            Ok(crate::mcp::tool_set(label, handlers, fresh)),
                        )
                    }
                },
            }
        },
    }
}

/// The server that has to be connected to before a declaration's tools can be looked up.
pub open spec fn to_connect(
    executors: GatewayExecutorsView,
    param: McpToolParamView,
) -> Option<Seq<char>> {
    let label = crate::text::trim_text(param.server_label);
    if options_valid(param) is Ok && label.len() > 0 && !executors.mcp.contains_key(label) {
        Some(label)
    } else {
        None
    }
}

impl GatewayExecutors {
    /// No executors.
    pub fn new() -> (executors: GatewayExecutors)
        ensures
            executors@.mcp == Map::<Seq<char>, HandlerListView>::empty(),
            executors@.web_search is None,
            executors@.connections == Map::<Seq<char>, McpConnectionView>::empty(),
    {
        GatewayExecutors { mcp: Table::new(), web_search: None, connections: Table::new() }
    }

    /// The executors that a gateway starts with: web searches by the provider that the
    /// configuration names.
    pub fn from_values(
        api_key: Option<String>,
        base_url: Option<String>,
    ) -> (executors: GatewayExecutors)
        ensures
            executors@.mcp == Map::<Seq<char>, HandlerListView>::empty(),
            executors@.web_search == Some(
                crate::web_search::handler_of(
                    crate::data::opt_view(api_key),
                    crate::data::opt_view(base_url),
                ),
            ),
            executors@.connections == Map::<Seq<char>, McpConnectionView>::empty(),
    {
        GatewayExecutors {
            mcp: Table::new(),
            web_search: Some(WebSearchHandler::from_values(api_key, base_url)),
            connections: Table::new(),
        }
    }

    /// Adds an executor.
    pub fn insert(&mut self, registration: GatewayExecutorRegistration)
        ensures
            final(self)@ == registered(old(self)@, registration@),
    {
        match registration {
            GatewayExecutorRegistration::Shared(handler) => match handler {
                GatewayHandler::WebSearch(handler) => {
                    self.web_search = Some(handler);
                },
                GatewayHandler::Mcp(_) => {},
            },
            GatewayExecutorRegistration::Mcp { server_label, handlers } => {
                proof {
                    assert(crate::data::views(handlers@).len() == handlers@.len());
                }
                if handlers.len() > 0 {
                    self.mcp.insert(server_label, HandlerList { handlers });
                }
            },
        }
    }

    /// Notes what came of connecting to a server.
    pub fn record_connection(&mut self, server_label: &str, connection: McpConnection)
        ensures
            final(self)@ == (GatewayExecutorsView {
                connections: old(self)@.connections.insert(
                    crate::text::trim_text(server_label@),
                    connection@,
                ),
                ..old(self)@
            }),
    {
        self.connections.insert(trim(server_label), connection);
    }

    /// What runs web searches.
    pub fn web_search_handler(&self) -> (handler: Option<WebSearchHandler>)
        ensures
            crate::data::opt_view(handler) == self@.web_search,
    {
        crate::data::copy_opt(&self.web_search)
    }

    /// Executors of one request's own, with the same contents.
    pub fn request_scoped(&self) -> (executors: GatewayExecutors)
        ensures
            executors@ == self@,
    {
        GatewayExecutors {
            mcp: self.mcp.copy(),
            web_search: crate::data::copy_opt(&self.web_search),
            connections: self.connections.copy(),
        }
    }

    /// The server that has to be connected to before a declaration's tools can be looked
    /// up.
    pub fn server_to_connect(&self, param: &McpToolParam) -> (label: Option<String>)
        ensures
            crate::data::opt_view(label) == to_connect(self@, param@),
    {
        if validate_mcp_execution_options(param).is_err() {
            return None;
        }
        let label = trim(param.server_label.as_str());
        if label.as_str().is_empty() || self.mcp.contains_key(&label) {
            return None;
        }
        Some(label)
    }

    /// The tools of a declared server.
    pub fn mcp_handler(&mut self, param: &McpToolParam) -> (out: Result<
        Vec<McpDiscoveredHandler>,
        ToolError,
    >)
        ensures
            exists|fresh: Seq<char>|
                crate::ids::is_uuid7(fresh) && final(self)@ == (#[trigger] server_tools(
                    old(self)@,
                    param@,
                    fresh,
                )).0 && (match server_tools(old(self)@, param@, fresh).1 {
                    Ok(set) => out matches Ok(handlers) && crate::data::views(handlers@)
                        == set.discovered_handlers,
                    Err(e) => out matches Err(x) && x@ == e,
                }),
    {
        match self.mcp_server_tools(param) {
            Ok(set) => Ok(set.discovered_handlers),
            Err(e) => Err(e),
        }
    }

    /// The tools of a declared server, and the public item that lists them under a new
    /// id.
    pub fn mcp_server_tools(&mut self, param: &McpToolParam) -> (out: Result<
        McpServerToolSet,
        ToolError,
    >)
        ensures
            exists|fresh: Seq<char>|
                crate::ids::is_uuid7(fresh) && (final(self)@, crate::error::outcome(out))
                    == #[trigger] server_tools(old(self)@, param@, fresh),
    {
        let fresh = fresh_uuid();
        self.mcp_server_tools_with(param, fresh.as_str())
    }

    /// The tools of a declared server, and the public item that lists them.
    pub fn mcp_server_tools_with(&mut self, param: &McpToolParam, fresh: &str) -> (out: Result<
        McpServerToolSet,
        ToolError,
    >)
        ensures
            (final(self)@, crate::error::outcome(out)) == server_tools(old(self)@, param@, fresh@),
    {
        if let Err(e) = validate_mcp_execution_options(param) {
            return Err(e);
        }
        let label = trim(param.server_label.as_str());
        if label.as_str().is_empty() {
            return Err(
                ToolError::Config("MCP declaration requires a non-empty server_label".to_owned()),
            );
        }
        if let Some(known) = self.mcp.get(&label) {
            let handlers = filter_allowed_mcp_handlers(&known.handlers, &param.allowed_tools);
            proof {
                assert(crate::data::views(handlers@).len() == handlers@.len());
                assert(crate::data::views(known.handlers@).len() == known.handlers@.len());
            }
            return match require_non_empty_mcp_handlers(label.as_str(), handlers) {
                Ok(handlers) => Ok(
                    McpHandler::server_tool_set_from_handlers(label.as_str(), handlers, fresh),
                ),
                Err(e) => Err(e),
            };
        }
        let handlers = match self.connections.get(&label) {
            None => {
                return Err(
                    ToolError::Config(
                        concat3(
                            "MCP server '",
                            label.as_str(),
                            "' has no valid request-declared configuration",
                        ),
                    ),
                );
            },
            Some(McpConnection::Failed { reason }) => {
                let start = concat3("MCP server '", label.as_str(), "' failed to connect: ");
                return Err(ToolError::Execution(concat(start.as_str(), reason.as_str())));
            },
            Some(McpConnection::Listed { client, tools }) => {
                proof {
                    assert(crate::data::views(tools@).len() == tools@.len());
                }
                McpHandler::discovered_tool_handlers(
                    label.as_str(),
                    client.as_str(),
                    tools,
                    &param.allowed_tools,
                )
            },
        };
        proof {
            assert(crate::data::views(handlers@).len() == handlers@.len());
        }
        match require_non_empty_mcp_handlers(label.as_str(), handlers) {
            Ok(handlers) => {
                let kept = HandlerList { handlers: copy_vec(&handlers) };
                let set = McpHandler::server_tool_set_from_handlers(
                    label.as_str(),
                    handlers,
                    fresh,
                );
                self.mcp.insert(label, kept);
                Ok(set)
            },
            Err(e) => Err(e),
        }
    }
}

impl Default for GatewayExecutors {
    fn default() -> (executors: GatewayExecutors)
        ensures
            executors@.mcp == Map::<Seq<char>, HandlerListView>::empty(),
            executors@.web_search is None,
            executors@.connections == Map::<Seq<char>, McpConnectionView>::empty(),
    {
        GatewayExecutors::new()
    }
}

/// What is told of the gateway's executors where they are logged: counts only.
pub open spec fn executors_summary(executors: GatewayExecutorsView) -> Seq<char> {
    "GatewayExecutors { mcp_server_handlers: "@ + crate::text::decimal_text(
        executors.mcp.dom().len(),
    ) + ", web_search: "@ + crate::text::yes_text(executors.web_search is Some) + " }"@
}

impl GatewayExecutors {
    /// What is told of the executors where they are logged.
    pub fn summary(&self) -> (text: String)
        ensures
            text@ == executors_summary(self@),
    {
        let count = decimal(self.mcp.len() as u64);
        let mut text = concat3(
            "GatewayExecutors { mcp_server_handlers: ",
            count.as_str(),
            ", web_search: ",
        );
        text = concat3(text.as_str(), yes_str(self.web_search.is_some()), " }");
        text
    }
}

} // verus!
