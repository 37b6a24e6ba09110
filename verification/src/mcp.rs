//! The tools of MCP servers: the names under which the model sees them, their calls and
//! what the client sees of these.
use vstd::prelude::*;

use crate::data::{copy_opt, copy_vec, same_opt, same_vec, Data};
use crate::error::ToolError;
#[allow(unused_imports)]
use crate::error::ToolErrorView;
use crate::handler::ToolOutput;
use crate::ids::{call_output_id, fresh_uuid};
use crate::items::{FunctionToolCall, GatewayCallStatus, McpListTools, McpToolCall, OutputItem};
#[allow(unused_imports)]
use crate::items::{FunctionToolCallView, McpListToolsView, McpToolCallView, OutputItemView};
#[allow(unused_imports)]
use crate::json::{Json, JsonObject, JsonView};
use crate::tables::Table;
use crate::text::{
    char_count, chars_of, concat, concat3, decimal, hex, is_blank, join, same_text, stable_hash,
    take_chars, trim,
};
use crate::tools::{FunctionTool, McpDiscoveredToolParam, McpTool, ResponsesTool, ToolType};
#[allow(unused_imports)]
use crate::tools::{FunctionToolView, McpDiscoveredToolParamView, McpToolView, ResponsesToolView};
use crate::wire::{read_list_or_empty, FromJson};

verus! {

/// Runs the tools of one MCP server. One without a client only shapes declarations.
#[derive(Debug, Clone, PartialEq)]
pub struct McpHandler {
    /// The name of the connected client.
    pub client: Option<String>,
}

/// The view of a [`McpHandler`].
#[verifier::ext_equal]
pub struct McpHandlerView {
    pub client: Option<Seq<char>>,
}

impl View for McpHandler {
    type V = McpHandlerView;

    open spec fn view(&self) -> McpHandlerView {
        McpHandlerView {
            client: crate::data::opt_view(self.client),
        }
    }
}

impl Data for McpHandler {
    fn copied(&self) -> (out: McpHandler) {
        McpHandler {
            client: copy_opt(&self.client),
        }
    }

    fn same(&self, other: &McpHandler) -> (yes: bool) {
        same_opt(&self.client, &other.client)
    }
}

/// A tool that an MCP server listed, and what runs it.
#[derive(Debug, Clone, PartialEq)]
pub struct McpDiscoveredHandler {
    pub param: McpDiscoveredToolParam,
    pub handler: McpHandler,
}

/// The view of a [`McpDiscoveredHandler`].
#[verifier::ext_equal]
pub struct McpDiscoveredHandlerView {
    pub param: McpDiscoveredToolParamView,
    pub handler: McpHandlerView,
}

impl View for McpDiscoveredHandler {
    type V = McpDiscoveredHandlerView;

    open spec fn view(&self) -> McpDiscoveredHandlerView {
        McpDiscoveredHandlerView {
            param: self.param@,
            handler: self.handler@,
        }
    }
}

impl Data for McpDiscoveredHandler {
    fn copied(&self) -> (out: McpDiscoveredHandler) {
        McpDiscoveredHandler {
            param: self.param.copied(),
            handler: self.handler.copied(),
        }
    }

    fn same(&self, other: &McpDiscoveredHandler) -> (yes: bool) {
        self.param.same(&other.param)
            && self.handler.same(&other.handler)
    }
}

/// The tools of one MCP server, and the public item that lists them.
#[derive(Debug, Clone, PartialEq)]
pub struct McpServerToolSet {
    pub discovered_handlers: Vec<McpDiscoveredHandler>,
    pub list_tools_item: McpListTools,
}

/// The view of a [`McpServerToolSet`].
#[verifier::ext_equal]
pub struct McpServerToolSetView {
    pub discovered_handlers: Seq<McpDiscoveredHandlerView>,
    pub list_tools_item: McpListToolsView,
}

impl View for McpServerToolSet {
    type V = McpServerToolSetView;

    open spec fn view(&self) -> McpServerToolSetView {
        McpServerToolSetView {
            discovered_handlers: crate::data::views(self.discovered_handlers@),
            list_tools_item: self.list_tools_item@,
        }
    }
}

impl Data for McpServerToolSet {
    fn copied(&self) -> (out: McpServerToolSet) {
        McpServerToolSet {
            discovered_handlers: copy_vec(&self.discovered_handlers),
            list_tools_item: self.list_tools_item.copied(),
        }
    }

    fn same(&self, other: &McpServerToolSet) -> (yes: bool) {
        same_vec(&self.discovered_handlers, &other.discovered_handlers)
            && self.list_tools_item.same(&other.list_tools_item)
    }
}

/// Which tool of which MCP server a function is.
#[derive(Debug, Clone, PartialEq)]
pub struct McpToolRef {
    pub server_label: String,
    pub tool_name: String,
}

/// The view of a [`McpToolRef`].
#[verifier::ext_equal]
pub struct McpToolRefView {
    pub server_label: Seq<char>,
    pub tool_name: Seq<char>,
}

impl View for McpToolRef {
    type V = McpToolRefView;

    open spec fn view(&self) -> McpToolRefView {
        McpToolRefView {
            server_label: self.server_label@,
            tool_name: self.tool_name@,
        }
    }
}

impl Data for McpToolRef {
    fn copied(&self) -> (out: McpToolRef) {
        McpToolRef {
            server_label: self.server_label.copied(),
            tool_name: self.tool_name.copied(),
        }
    }

    fn same(&self, other: &McpToolRef) -> (yes: bool) {
        self.server_label.same(&other.server_label)
            && self.tool_name.same(&other.tool_name)
    }
}

/// What an MCP server is asked to do.
#[derive(Debug, Clone, PartialEq)]
pub struct McpCallPlan {
    pub client: String,
    pub server_label: String,
    pub tool_name: String,
    pub arguments: Option<Json>,
}

/// The view of a [`McpCallPlan`].
#[verifier::ext_equal]
pub struct McpCallPlanView {
    pub client: Seq<char>,
    pub server_label: Seq<char>,
    pub tool_name: Seq<char>,
    pub arguments: Option<JsonView>,
}

impl View for McpCallPlan {
    type V = McpCallPlanView;

    open spec fn view(&self) -> McpCallPlanView {
        McpCallPlanView {
            client: self.client@,
            server_label: self.server_label@,
            tool_name: self.tool_name@,
            arguments: crate::data::opt_view(self.arguments),
        }
    }
}

impl Data for McpCallPlan {
    fn copied(&self) -> (out: McpCallPlan) {
        McpCallPlan {
            client: self.client.copied(),
            server_label: self.server_label.copied(),
            tool_name: self.tool_name.copied(),
            arguments: copy_opt(&self.arguments),
        }
    }

    fn same(&self, other: &McpCallPlan) -> (yes: bool) {
        self.client.same(&other.client)
            && self.server_label.same(&other.server_label)
            && self.tool_name.same(&other.tool_name)
            && same_opt(&self.arguments, &other.arguments)
    }
}

/// What an MCP server answered: its content items as JSON, and its structured content.
#[derive(Debug, Clone, PartialEq)]
pub struct McpCallResult {
    pub content: Vec<Json>,
    /// The content as JSON text, as the protocol's own types write it.
    pub content_text: String,
    pub structured_content: Option<Json>,
    pub is_error: Option<bool>,
}

/// The view of a [`McpCallResult`].
#[verifier::ext_equal]
pub struct McpCallResultView {
    pub content: Seq<JsonView>,
    pub content_text: Seq<char>,
    pub structured_content: Option<JsonView>,
    pub is_error: Option<bool>,
}

impl View for McpCallResult {
    type V = McpCallResultView;

    open spec fn view(&self) -> McpCallResultView {
        McpCallResultView {
            content: crate::data::views(self.content@),
            content_text: self.content_text@,
            structured_content: crate::data::opt_view(self.structured_content),
            is_error: self.is_error,
        }
    }
}

impl Data for McpCallResult {
    fn copied(&self) -> (out: McpCallResult) {
        McpCallResult {
            content: copy_vec(&self.content),
            content_text: self.content_text.clone(),
            structured_content: copy_opt(&self.structured_content),
            is_error: self.is_error,
        }
    }

    fn same(&self, other: &McpCallResult) -> (yes: bool) {
        same_vec(&self.content, &other.content)
            && same_text(self.content_text.as_str(), other.content_text.as_str())
            && same_opt(&self.structured_content, &other.structured_content)
            && self.is_error == other.is_error
    }
}

/// The longest internal name of an MCP tool, in characters.
pub const MAX_INTERNAL_TOOL_NAME_LEN: usize = 64;

/// Whether a character may stand in a tool's name.
pub open spec fn is_name_char(c: char) -> bool {
    ||| 0x30 <= c as u32 <= 0x39
    ||| 0x41 <= c as u32 <= 0x5a
    ||| 0x61 <= c as u32 <= 0x7a
    ||| c == '_'
    ||| c == '-'
}

/// A character of a tool's name.
pub open spec fn name_char(c: char) -> char {
    if is_name_char(c) {
        c
    } else {
        '_'
    }
}

/// A name with an underscore for each character that may not stand in one.
pub open spec fn sanitized_name(value: Seq<char>) -> Seq<char> {
    value.map_values(|c: char| name_char(c))
}

/// A name with an underscore for each character that may not stand in one.
pub fn sanitize_internal_tool_name(value: &str) -> (name: String)
    ensures
        name@ == sanitized_name(value@),
{
    let chars = chars_of(value);
    let mut name = String::new();
    let mut i: usize = 0;
    proof {
        assert(value@.take(0).map_values(|c: char| name_char(c)) =~= Seq::empty());
    }
    while i < chars.len()
        invariant
            i <= chars@.len(),
            chars@ == value@,
            name@ == value@.take(i as int).map_values(|c: char| name_char(c)),
        decreases chars@.len() - i,
    {
        let c = chars[i];
        let n: u32 = c as u32;
        let kept = (0x30 <= n && n <= 0x39) || (0x41 <= n && n <= 0x5a) || (0x61 <= n && n <= 0x7a)
            || c == '_' || c == '-';
        name.push(
            if kept {
                c
            } else {
                '_'
            },
        );
        proof {
            assert(value@.take(i + 1).map_values(|c: char| name_char(c)) =~= value@.take(
                i as int,
            ).map_values(|c: char| name_char(c)).push(name_char(c)));
        }
        i = i + 1;
    }
    proof {
        assert(value@.take(value@.len() as int) =~= value@);
    }
    name
}

/// The internal name that a tool has by its server and its own name.
pub open spec fn base_name(server_label: Seq<char>, tool_name: Seq<char>) -> Seq<char> {
    sanitized_name("mcp__"@ + server_label + "__"@ + tool_name)
}

/// What is hashed for an attempt at another name.
pub open spec fn hash_input(
    server_label: Seq<char>,
    tool_name: Seq<char>,
    attempt: nat,
) -> Seq<char> {
    if attempt == 0 {
        server_label + ":"@ + tool_name
    } else {
        server_label + ":"@ + tool_name + ":"@ + crate::text::decimal_text(attempt)
    }
}

/// The name of an attempt: what fits of the base, and a hash of the identity.
pub open spec fn hashed_name(
    server_label: Seq<char>,
    tool_name: Seq<char>,
    attempt: nat,
) -> Seq<char> {
    let base = base_name(server_label, tool_name);
    let hash = crate::text::fnv1a(
        vstd::utf8::encode_utf8(hash_input(server_label, tool_name, attempt)),
    ) as nat;
    (if base.len() <= 52 {
        base
    } else {
        base.take(52)
    }) + "__"@ + crate::text::hex_text(hash % 0x100_0000_0000, 10)
}

/// Whether a name is free for an identity: not used, or used by it.
pub open spec fn free_for(
    used: Map<Seq<char>, (Seq<char>, Seq<char>)>,
    name: Seq<char>,
    server_label: Seq<char>,
    tool_name: Seq<char>,
) -> bool {
    used.contains_key(name) ==> used[name] == (server_label, tool_name)
}

/// The first attempt from `attempt` on whose name is free.
pub open spec fn first_free(
    used: Map<Seq<char>, (Seq<char>, Seq<char>)>,
    server_label: Seq<char>,
    tool_name: Seq<char>,
    attempt: nat,
) -> Option<Seq<char>>
    decreases u32::MAX - attempt,
{
    let name = hashed_name(server_label, tool_name, attempt);
    if free_for(used, name, server_label, tool_name) {
        Some(name)
    } else if attempt >= u32::MAX {
        None
    } else {
        first_free(used, server_label, tool_name, attempt + 1)
    }
}

/// The internal name of a tool: the base where it is short enough and free, else the
/// first attempt that is free.
pub open spec fn internal_name(
    used: Map<Seq<char>, (Seq<char>, Seq<char>)>,
    server_label: Seq<char>,
    tool_name: Seq<char>,
) -> Option<Seq<char>> {
    let base = base_name(server_label, tool_name);
    if base.len() <= 64 && free_for(used, base, server_label, tool_name) {
        Some(base)
    } else {
        first_free(used, server_label, tool_name, 0)
    }
}

/// The names in use after a tool got its name.
pub open spec fn name_taken(
    used: Map<Seq<char>, (Seq<char>, Seq<char>)>,
    server_label: Seq<char>,
    tool_name: Seq<char>,
) -> Map<Seq<char>, (Seq<char>, Seq<char>)> {
    match internal_name(used, server_label, tool_name) {
        Some(name) => used.insert(name, (server_label, tool_name)),
        None => used,
    }
}

fn is_free_for(
    used: &Table<String, (String, String)>,
    name: &String,
    server_label: &str,
    tool_name: &str,
) -> (yes: bool)
    ensures
        yes == free_for(used@, name@, server_label@, tool_name@),
{
    match used.get(name) {
        Some(owner) => same_text(owner.0.as_str(), server_label) && same_text(
            owner.1.as_str(),
            tool_name,
        ),
        None => true,
    }
}

fn make_hashed_name(base: &str, server_label: &str, tool_name: &str, attempt: u32) -> (name: String)
    requires
        base@ == base_name(server_label@, tool_name@),
    ensures
        name@ == hashed_name(server_label@, tool_name@, attempt as nat),
{
    let mut input = concat3(server_label, ":", tool_name);
    if attempt > 0 {
        input = concat3(input.as_str(), ":", decimal(attempt as u64).as_str());
    }
    let hash: u64 = stable_hash(input.as_str()) % 0x100_0000_0000;
    let kept = take_chars(base, 52);
    proof {
        if base@.len() == 52 {
            assert(base@.take(52) =~= base@);
        }
    }
    concat3(kept.as_str(), "__", hex(hash, 10).as_str())
}

/// Gives a tool its internal name, and notes whose it is. There is no name only where
/// every attempt is another tool's.
pub fn internal_mcp_tool_name(
    server_label: &str,
    tool_name: &str,
    used: &mut Table<String, (String, String)>,
) -> (name: Option<String>)
    ensures
        crate::data::opt_view(name) == internal_name(old(used)@, server_label@, tool_name@),
        final(used)@ == name_taken(old(used)@, server_label@, tool_name@),
{
    let full = concat3(concat("mcp__", server_label).as_str(), "__", tool_name);
    let base = sanitize_internal_tool_name(full.as_str());
    if char_count(base.as_str()) <= MAX_INTERNAL_TOOL_NAME_LEN && is_free_for(
        &*used,
        &base,
        server_label,
        tool_name,
    ) {
        used.insert(base.clone(), (server_label.to_owned(), tool_name.to_owned()));
        return Some(base);
    }
    let ghost start = used@;
    let mut attempt: u32 = 0;
    loop
        invariant
            used@ == start,
            start == old(used)@,
            base@ == base_name(server_label@, tool_name@),
            internal_name(start, server_label@, tool_name@) == first_free(
                start,
                server_label@,
                tool_name@,
                attempt as nat,
            ),
        decreases u32::MAX - attempt,
    {
        let name = make_hashed_name(base.as_str(), server_label, tool_name, attempt);
        if is_free_for(&*used, &name, server_label, tool_name) {
            used.insert(name.clone(), (server_label.to_owned(), tool_name.to_owned()));
            return Some(name);
        }
        if attempt == u32::MAX {
            return None;
        }
        attempt = attempt + 1;
    }
}

/// An internal name is never longer than what the model is shown.
pub proof fn internal_names_fit(
    used: Map<Seq<char>, (Seq<char>, Seq<char>)>,
    server_label: Seq<char>,
    tool_name: Seq<char>,
)
    ensures
        internal_name(used, server_label, tool_name) matches Some(name) ==> name.len() <= 64,
{
    first_free_fits(used, server_label, tool_name, 0);
}

proof fn first_free_fits(
    used: Map<Seq<char>, (Seq<char>, Seq<char>)>,
    server_label: Seq<char>,
    tool_name: Seq<char>,
    attempt: nat,
)
    ensures
        first_free(used, server_label, tool_name, attempt) matches Some(name) ==> name.len() <= 64,
    decreases u32::MAX - attempt,
{
    let hash = crate::text::fnv1a(
        vstd::utf8::encode_utf8(hash_input(server_label, tool_name, attempt)),
    ) as nat;
    crate::text::hex_text_length(hash % 0x100_0000_0000, 10);
    reveal_strlit("__");
    if !free_for(used, hashed_name(server_label, tool_name, attempt), server_label, tool_name)
        && attempt < u32::MAX {
        first_free_fits(used, server_label, tool_name, attempt + 1);
    }
}

/// No two tools share an internal name: one that is another tool's is never given.
pub proof fn internal_names_are_distinct(
    used: Map<Seq<char>, (Seq<char>, Seq<char>)>,
    server_label: Seq<char>,
    tool_name: Seq<char>,
)
    ensures
        internal_name(used, server_label, tool_name) matches Some(name) ==> free_for(
            used,
            name,
            server_label,
            tool_name,
        ),
        forall|k: Seq<char>| #[trigger]
            used.contains_key(k) ==> name_taken(used, server_label, tool_name).contains_key(k)
                && name_taken(used, server_label, tool_name)[k] == used[k],
{
    first_free_is_free(used, server_label, tool_name, 0);
}

proof fn first_free_is_free(
    used: Map<Seq<char>, (Seq<char>, Seq<char>)>,
    server_label: Seq<char>,
    tool_name: Seq<char>,
    attempt: nat,
)
    ensures
        first_free(used, server_label, tool_name, attempt) matches Some(name) ==> free_for(
            used,
            name,
            server_label,
            tool_name,
        ),
    decreases u32::MAX - attempt,
{
    if !free_for(used, hashed_name(server_label, tool_name, attempt), server_label, tool_name)
        && attempt < u32::MAX {
        first_free_is_free(used, server_label, tool_name, attempt + 1);
    }
}

/// Whether a text has only characters that may stand in a tool's name.
pub open spec fn is_name(text: Seq<char>) -> bool {
    forall|i: int| 0 <= i < text.len() ==> is_name_char(#[trigger] text[i])
}

proof fn hex_is_name(n: nat, width: nat)
    ensures
        is_name(crate::text::hex_text(n, width)),
    decreases width,
{
    if width > 0 {
        hex_is_name(n / 16, (width - 1) as nat);
    }
}

proof fn base_is_name(server_label: Seq<char>, tool_name: Seq<char>)
    ensures
        is_name(base_name(server_label, tool_name)),
{
}

proof fn first_free_is_name(
    used: Map<Seq<char>, (Seq<char>, Seq<char>)>,
    server_label: Seq<char>,
    tool_name: Seq<char>,
    attempt: nat,
)
    ensures
        first_free(used, server_label, tool_name, attempt) matches Some(name) ==> is_name(name),
    decreases u32::MAX - attempt,
{
    let hash = crate::text::fnv1a(
        vstd::utf8::encode_utf8(hash_input(server_label, tool_name, attempt)),
    ) as nat;
    base_is_name(server_label, tool_name);
    hex_is_name(hash % 0x100_0000_0000, 10);
    reveal_strlit("__");
    assert(is_name(hashed_name(server_label, tool_name, attempt)));
    if !free_for(used, hashed_name(server_label, tool_name, attempt), server_label, tool_name)
        && attempt < u32::MAX {
        first_free_is_name(used, server_label, tool_name, attempt + 1);
    }
}

/// An internal name has only letters, digits, underscores and hyphens.
pub proof fn internal_names_are_names(
    used: Map<Seq<char>, (Seq<char>, Seq<char>)>,
    server_label: Seq<char>,
    tool_name: Seq<char>,
)
    ensures
        internal_name(used, server_label, tool_name) matches Some(name) ==> is_name(name),
{
    base_is_name(server_label, tool_name);
    first_free_is_name(used, server_label, tool_name, 0);
}

proof fn first_free_comes_again(
    used: Map<Seq<char>, (Seq<char>, Seq<char>)>,
    server_label: Seq<char>,
    tool_name: Seq<char>,
    attempt: nat,
)
    ensures
        first_free(used, server_label, tool_name, attempt) matches Some(name) ==> first_free(
            used.insert(name, (server_label, tool_name)),
            server_label,
            tool_name,
            attempt,
        ) == Some(name),
    decreases u32::MAX - attempt,
{
    first_free_is_free(used, server_label, tool_name, attempt);
    if !free_for(used, hashed_name(server_label, tool_name, attempt), server_label, tool_name)
        && attempt < u32::MAX {
        first_free_comes_again(used, server_label, tool_name, attempt + 1);
    }
}

/// A tool that was given an internal name is given it again, and no other name is noted.
pub proof fn internal_names_come_again(
    used: Map<Seq<char>, (Seq<char>, Seq<char>)>,
    server_label: Seq<char>,
    tool_name: Seq<char>,
)
    ensures
        internal_name(name_taken(used, server_label, tool_name), server_label, tool_name)
            == internal_name(used, server_label, tool_name),
        name_taken(name_taken(used, server_label, tool_name), server_label, tool_name)
            == name_taken(used, server_label, tool_name),
{
    first_free_is_free(used, server_label, tool_name, 0);
    first_free_comes_again(used, server_label, tool_name, 0);
    let taken = name_taken(used, server_label, tool_name);
    if let Some(name) = internal_name(used, server_label, tool_name) {
        assert(taken.insert(name, (server_label, tool_name)) =~= taken);
    }
}

/// Whether a tool is among those that a request allows.
pub open spec fn is_allowed(allowed: Option<Seq<Seq<char>>>, name: Seq<char>) -> bool {
    match allowed {
        Some(names) => names.contains(name),
        None => true,
    }
}

/// Whether a tool is among those that a request allows.
pub fn allows(allowed: &Option<Vec<String>>, name: &str) -> (yes: bool)
    ensures
        yes == is_allowed(crate::data::opt_views(*allowed), name@),
{
    match allowed {
        Some(names) => {
            let ghost all = crate::data::views(names@);
            let mut i: usize = 0;
            while i < names.len()
                invariant
                    i <= names@.len(),
                    all == crate::data::views(names@),
                    Some(all) == crate::data::opt_views(*allowed),
                    forall|j: int| 0 <= j < i ==> all[j] != name@,
                decreases names@.len() - i,
            {
                proof {
                    assert(all[i as int] == names@[i as int]@);
                }
                if same_text(names[i].as_str(), name) {
                    return true;
                }
                i = i + 1;
            }
            false
        },
        None => true,
    }
}

/// The names in use and the handlers after the first `n` listed tools: those that the
/// request allows, each under its internal name.
pub open spec fn discovered(
    server_label: Seq<char>,
    client: Seq<char>,
    tools: Seq<McpToolView>,
    allowed: Option<Seq<Seq<char>>>,
    n: int,
) -> (Map<Seq<char>, (Seq<char>, Seq<char>)>, Seq<McpDiscoveredHandlerView>)
    decreases n,
{
    if n <= 0 {
        (Map::empty(), Seq::empty())
    } else {
        let (used, handlers) = discovered(server_label, client, tools, allowed, n - 1);
        let tool = tools[n - 1];
        if !is_allowed(allowed, tool.name) {
            (used, handlers)
        } else {
            (
                name_taken(used, server_label, tool.name),
                match internal_name(used, server_label, tool.name) {
                    Some(internal) => handlers.push(
                        McpDiscoveredHandlerView {
                            param: McpDiscoveredToolParamView {
                                server_label,
                                tool_name: tool.name,
                                internal_name: internal,
                                tool,
                            },
                            handler: McpHandlerView { client: Some(client) },
                        },
                    ),
                    None => handlers,
                },
            )
        }
    }
}

/// The functions that a declaration's discovered tools are, where they are declared as
/// they should be.
pub open spec fn param_functions(param: JsonView) -> Seq<FunctionToolView> {
    match param {
        JsonView::Object(fields) => match crate::wire::list_or_empty::<McpDiscoveredToolParam>(
            fields,
            "_agentic_discovered_tools"@,
        ) {
            Some(tools) => crate::normalize::discovered_functions(tools),
            None => Seq::empty(),
        },
        _ => Seq::empty(),
    }
}

/// A tool of a listing: what it may do is said by one flag.
pub open spec fn listed_tool(tool: McpToolView) -> McpToolView {
    McpToolView {
        annotations: Some(
            JsonView::Object(
                Map::<Seq<char>, JsonView>::empty().insert(
                    "read_only"@,
                    JsonView::Bool(is_read_only(tool.annotations)),
                ),
            ),
        ),
        ..tool
    }
}

/// Whether a tool says of itself that it changes nothing.
pub open spec fn is_read_only(annotations: Option<JsonView>) -> bool {
    match annotations {
        Some(a) => crate::json::field(a, "readOnlyHint"@) == Some(JsonView::Bool(true)),
        None => false,
    }
}

fn list_tool(tool: &McpTool) -> (out: McpTool)
    ensures
        out@ == listed_tool(tool@),
{
    let read_only = match &tool.annotations {
        Some(a) => match a.get("readOnlyHint") {
            Some(Json::Bool(b)) => *b,
            _ => false,
        },
        None => false,
    };
    let mut fields = JsonObject::new();
    fields.set("read_only", Json::Bool(read_only));
    let mut out = tool.copied();
    out.annotations = Some(Json::Object(fields));
    out
}

/// The tools of handlers, and the public item that lists them.
pub open spec fn tool_set(
    server_label: Seq<char>,
    handlers: Seq<McpDiscoveredHandlerView>,
    fresh: Seq<char>,
) -> McpServerToolSetView {
    McpServerToolSetView {
        discovered_handlers: handlers,
        list_tools_item: McpListToolsView {
            id: "mcpl_"@ + fresh,
            server_label,
            tools: handlers.map_values(|h: McpDiscoveredHandlerView| listed_tool(h.param.tool)),
            error: None,
        },
    }
}

/// The public item of a server whose tools could not be listed.
pub open spec fn failed_listing(
    server_label: Seq<char>,
    error: ToolErrorView,
    fresh: Seq<char>,
) -> McpListToolsView {
    McpListToolsView {
        id: "mcpl_"@ + fresh,
        server_label,
        tools: Seq::empty(),
        error: Some(crate::error::tool_error_text(error)),
    }
}

/// The texts of the first `n` content items that are texts.
pub open spec fn content_texts(content: Seq<JsonView>, n: int) -> Seq<Seq<char>>
    decreases n,
{
    if n <= 0 {
        Seq::empty()
    } else {
        let rest = content_texts(content, n - 1);
        match crate::json::text_of(crate::json::field(content[n - 1], "text"@)) {
            Some(text) if crate::json::text_of(crate::json::field(content[n - 1], "type"@)) == Some(
                "text"@,
            ) => rest.push(text),
            _ => rest,
        }
    }
}

/// The output of an answer: its texts, line by line; where they say nothing its
/// structured content, else its content as JSON. An answer that is an error is one.
pub open spec fn result_text(result: McpCallResultView) -> Result<Seq<char>, ToolErrorView> {
    let text = crate::text::join_text(
        content_texts(result.content, result.content.len() as int),
        "\n"@,
    );
    let output = if text.len() > 0 {
        text
    } else {
        match result.structured_content {
            Some(value) => crate::json::json_text(value),
            None => result.content_text,
        }
    };
    if result.is_error == Some(true) {
        Err(ToolErrorView::Execution(output))
    } else {
        Ok(output)
    }
}

/// The output of an answer.
pub fn mcp_tool_result_text(result: &McpCallResult) -> (out: Result<String, ToolError>)
    ensures
        crate::error::outcome(out) == result_text(result@),
{
    let mut texts: Vec<String> = Vec::new();
    let ghost all = result@.content;
    let mut i: usize = 0;
    proof {
        assert(crate::data::views(texts@) =~= Seq::empty());
    }
    while i < result.content.len()
        invariant
            i <= result.content@.len(),
            all == crate::data::views(result.content@),
            crate::data::views(texts@) == content_texts(all, i as int),
        decreases result.content@.len() - i,
    {
        proof {
            assert(all[i as int] == result.content@[i as int]@);
        }
        if result.content[i].field_is("type", "text") {
            if let Some(text) = result.content[i].get_str("text") {
                let text = text.to_owned();
                proof {
                    crate::data::views_push(texts@, text);
                }
                texts.push(text);
            }
        }
        i = i + 1;
    }
    let text = join(&texts, "\n");
    let output = if !text.as_str().is_empty() {
        text
    } else {
        match &result.structured_content {
            Some(value) => value.to_text(),
            None => result.content_text.clone(),
        }
    };
    if result.is_error == Some(true) {
        Err(ToolError::Execution(output))
    } else {
        Ok(output)
    }
}

/// Which tool a configuration speaks of. `reason` is what is told to be wrong with one that
/// speaks of none.
pub open spec fn configured_tool(config: JsonView, reason: Seq<char>) -> Result<
    McpDiscoveredToolParamView,
    ToolErrorView,
> {
    match <McpDiscoveredToolParam as FromJson>::of_json(config) {
        Some(param) => Ok(param),
        None => Err(ToolErrorView::Config("invalid MCP tool config: "@ + reason)),
    }
}

/// Which tool a configuration speaks of. `reason` is what is told to be wrong with one that
/// speaks of none.
pub fn mcp_tool_param(config: &Json, reason: &str) -> (out: Result<
    McpDiscoveredToolParam,
    ToolError,
>)
    ensures
        crate::error::outcome(out) == configured_tool(config@, reason@),
{
    match McpDiscoveredToolParam::from_json(config) {
        Some(param) => Ok(param),
        None => Err(ToolError::Config(concat("invalid MCP tool config: ", reason))),
    }
}

/// What an MCP server is asked to do for parsed arguments.
pub open spec fn call_plan(
    handler: McpHandlerView,
    config: JsonView,
    reason: Seq<char>,
    arguments: Option<JsonView>,
) -> Result<
    McpCallPlanView,
    ToolErrorView,
> {
    match handler.client {
        None => Err(ToolErrorView::Config("MCP tool spec-only handler cannot execute tools"@)),
        Some(client) => match configured_tool(config, reason) {
            Err(e) => Err(e),
            Ok(param) => Ok(
                McpCallPlanView {
                    client,
                    server_label: param.server_label,
                    tool_name: param.tool_name,
                    arguments,
                },
            ),
        },
    }
}

/// The server labels of the first `n` declarations that are of MCP servers.
pub open spec fn server_labels(tools: Seq<ResponsesToolView>, n: int) -> Seq<Seq<char>>
    decreases n,
{
    if n <= 0 {
        Seq::empty()
    } else {
        match tools[n - 1] {
            ResponsesToolView::Mcp(p) => server_labels(tools, n - 1).push(
                crate::text::trim_text(p.server_label),
            ),
            _ => server_labels(tools, n - 1),
        }
    }
}

/// The outcome of checking that no server is declared twice.
pub open spec fn labels_valid(tools: Seq<ResponsesToolView>, i: int) -> Result<(), ToolErrorView>
    decreases tools.len() - i,
{
    if i < 0 || i >= tools.len() {
        Ok(())
    } else {
        match tools[i] {
            ResponsesToolView::Mcp(p) if server_labels(tools, i).contains(
                crate::text::trim_text(p.server_label),
            ) => Err(
                ToolErrorView::Config(
                    "duplicate MCP declarations for server_label '"@ + crate::text::trim_text(
                        p.server_label,
                    ) + "'"@,
                ),
            ),
            _ => labels_valid(tools, i + 1),
        }
    }
}

impl McpHandler {
    /// A handler that only shapes declarations.
    pub fn discovered_tool_spec_only() -> (handler: McpHandler)
        ensures
            handler@.client is None,
    {
        McpHandler { client: None }
    }

    /// A handler that runs tools through a connected client.
    pub fn tool_call(client: String) -> (handler: McpHandler)
        ensures
            handler@.client == Some(client@),
    {
        McpHandler { client: Some(client) }
    }

    /// The handler that shapes a declaration.
    pub fn spec_from_param(param: &Json) -> (handler: McpHandler)
        ensures
            handler@.client is None,
    {
        Self::discovered_tool_spec_only()
    }

    /// The type of the tools that this handler runs.
    pub fn tool_type(&self) -> (tool_type: ToolType)
        ensures
            tool_type == ToolType::Mcp,
    {
        ToolType::Mcp
    }

    /// The functions that a declaration's discovered tools are; none where the
    /// declaration is not as it should be.
    pub fn normalize(&self, param: &Json) -> (functions: Vec<FunctionTool>)
        ensures
            crate::data::views(functions@) == param_functions(param@),
    {
        if let Json::Object(fields) = param {
            if let Some(tools) = read_list_or_empty::<McpDiscoveredToolParam>(
                fields,
                "_agentic_discovered_tools",
            ) {
                return crate::normalize::discovered_function_tools(&tools);
            }
        }
        let functions: Vec<FunctionTool> = Vec::new();
        proof {
            assert(crate::data::views(functions@) =~= Seq::empty());
        }
        functions
    }

    /// The handlers of the tools that a server listed, as far as the request allows
    /// them.
    pub fn discovered_tool_handlers(
        server_label: &str,
        client: &str,
        tools: &Vec<McpTool>,
        allowed: &Option<Vec<String>>,
    ) -> (handlers: Vec<McpDiscoveredHandler>)
        ensures
            crate::data::views(handlers@) == discovered(
                server_label@,
                client@,
                crate::data::views(tools@),
                crate::data::opt_views(*allowed),
                tools@.len() as int,
            ).1,
    {
        let mut handlers: Vec<McpDiscoveredHandler> = Vec::new();
        let mut used: Table<String, (String, String)> = Table::new();
        let ghost all = crate::data::views(tools@);
        let ghost permitted = crate::data::opt_views(*allowed);
        let mut i: usize = 0;
        proof {
            assert(crate::data::views(handlers@) =~= Seq::empty());
        }
        while i < tools.len()
            invariant
                i <= tools@.len(),
                all == crate::data::views(tools@),
                permitted == crate::data::opt_views(*allowed),
                discovered(server_label@, client@, all, permitted, i as int) == (
                    used@,
                    crate::data::views(handlers@),
                ),
            decreases tools@.len() - i,
        {
            proof {
                assert(all[i as int] == tools@[i as int]@);
            }
            if allows(allowed, tools[i].name.as_str()) {
                if let Some(internal) = internal_mcp_tool_name(
                    server_label,
                    tools[i].name.as_str(),
                    &mut used,
                ) {
                    let handler = McpDiscoveredHandler {
                        param: McpDiscoveredToolParam {
                            server_label: server_label.to_owned(),
                            tool_name: tools[i].name.clone(),
                            internal_name: internal,
                            tool: tools[i].copied(),
                        },
                        handler: McpHandler::tool_call(client.to_owned()),
                    };
                    proof {
                        crate::data::views_push(handlers@, handler);
                    }
                    handlers.push(handler);
                }
            }
            i = i + 1;
        }
        handlers
    }

    /// The tools of handlers, and the public item that lists them.
    pub fn server_tool_set_from_handlers(
        server_label: &str,
        handlers: Vec<McpDiscoveredHandler>,
        fresh: &str,
    ) -> (set: McpServerToolSet)
        ensures
            set@ == tool_set(server_label@, crate::data::views(handlers@), fresh@),
    {
        let mut tools: Vec<McpTool> = Vec::new();
        let ghost all = crate::data::views(handlers@);
        let mut i: usize = 0;
        while i < handlers.len()
            invariant
                i <= handlers@.len(),
                tools@.len() == i,
                forall|j: int|
                    0 <= j < i ==> (#[trigger] tools@[j])@ == listed_tool(handlers@[j]@.param.tool),
            decreases handlers@.len() - i,
        {
            tools.push(list_tool(&handlers[i].param.tool));
            i = i + 1;
        }
        proof {
            assert(crate::data::views(tools@) =~= all.map_values(
                |h: McpDiscoveredHandlerView| listed_tool(h.param.tool),
            ));
        }
        McpServerToolSet {
            discovered_handlers: handlers,
            list_tools_item: McpListTools {
                id: concat("mcpl_", fresh),
                server_label: server_label.to_owned(),
                tools,
                error: None,
            },
        }
    }

    /// The public item of a server whose tools could not be listed.
    pub fn failed_list_tools_item(
        server_label: &str,
        error: &ToolError,
        fresh: &str,
    ) -> (item: McpListTools)
        ensures
            item@ == failed_listing(server_label@, error@, fresh@),
    {
        let tools: Vec<McpTool> = Vec::new();
        proof {
            assert(crate::data::views(tools@) =~= Seq::empty());
        }
        McpListTools {
            id: concat("mcpl_", fresh),
            server_label: server_label.to_owned(),
            tools,
            error: Some(error.message()),
        }
    }

    /// Refuses two declarations of one server.
    pub fn validate_server_labels(tools: &Vec<ResponsesTool>) -> (out: Result<(), ToolError>)
        ensures
            crate::error::outcome(out) == labels_valid(crate::data::views(tools@), 0),
    {
        let mut labels: Vec<String> = Vec::new();
        let ghost all = crate::data::views(tools@);
        let mut i: usize = 0;
        proof {
            assert(crate::data::views(labels@) =~= Seq::empty());
        }
        while i < tools.len()
            invariant
                i <= tools@.len(),
                all == crate::data::views(tools@),
                crate::data::views(labels@) == server_labels(all, i as int),
                labels_valid(all, 0) == labels_valid(all, i as int),
            decreases tools@.len() - i,
        {
            proof {
                assert(all[i as int] == tools@[i as int]@);
            }
            if let ResponsesTool::Mcp(p) = &tools[i] {
                let label = trim(p.server_label.as_str());
                if contains_text(&labels, label.as_str()) {
                    return Err(
                        ToolError::Config(
                            concat3(
                                "duplicate MCP declarations for server_label '",
                                label.as_str(),
                                "'",
                            ),
                        ),
                    );
                }
                proof {
                    crate::data::views_push(labels@, label);
                }
                labels.push(label);
            }
            i = i + 1;
        }
        Ok(())
    }

    /// What an MCP server is asked to do, with the arguments parsed.
    pub fn plan_with(
        &self,
        config: &Json,
        reason: &str,
        arguments: Option<Json>,
    ) -> (out: Result<McpCallPlan, ToolError>)
        ensures
            crate::error::outcome(out) == call_plan(
                self@,
                config@,
                reason@,
                crate::data::opt_view(arguments),
            ),
    {
        let client = match &self.client {
            Some(client) => client.clone(),
            None => {
                return Err(
                    ToolError::Config("MCP tool spec-only handler cannot execute tools".to_owned()),
                );
            },
        };
        match mcp_tool_param(config, reason) {
            Ok(param) => Ok(
                McpCallPlan {
                    client,
                    server_label: param.server_label,
                    tool_name: param.tool_name,
                    arguments,
                },
            ),
            Err(e) => Err(e),
        }
    }

    /// What an MCP server is asked to do. Arguments that are no JSON are left out. `reason` is
    /// what is told to be wrong with a configuration that speaks of no tool.
    pub fn plan(&self, config: &Json, reason: &str, arguments: &str) -> (out: Result<
        McpCallPlan,
        ToolError,
    >)
        ensures
            crate::error::outcome(out) == call_plan(
                self@,
                config@,
                reason@,
                crate::json::parsed_json(arguments@),
            ),
    {
        self.plan_with(config, reason, Json::parse(arguments))
    }

    /// The error of a call that did not reach its server.
    pub fn call_failed(server_label: &str, reason: &str) -> (error: ToolError)
        ensures
            error@ == ToolErrorView::Execution(
                "tools/call failed for MCP server '"@ + server_label@ + "': "@ + reason@,
            ),
    {
        let start = concat3("tools/call failed for MCP server '", server_label, "': ");
        ToolError::Execution(concat(start.as_str(), reason))
    }
}

fn contains_text(texts: &Vec<String>, text: &str) -> (yes: bool)
    ensures
        yes == crate::data::views(texts@).contains(text@),
{
    let ghost all = crate::data::views(texts@);
    let mut i: usize = 0;
    while i < texts.len()
        invariant
            i <= texts@.len(),
            all == crate::data::views(texts@),
            forall|j: int| 0 <= j < i ==> all[j] != text@,
        decreases texts@.len() - i,
    {
        proof {
            assert(all[i as int] == texts@[i as int]@);
        }
        if same_text(texts[i].as_str(), text) {
            return true;
        }
        i = i + 1;
    }
    false
}

/// Which tool of which server a call is of. Where the configuration does not say, the
/// server is not known and the name is the call's.
pub open spec fn call_identity(call: FunctionToolCallView, config: JsonView) -> McpToolRefView {
    match <McpDiscoveredToolParam as FromJson>::of_json(config) {
        Some(param) => McpToolRefView {
            server_label: param.server_label,
            tool_name: param.tool_name,
        },
        None => McpToolRefView { server_label: Seq::empty(), tool_name: call.name },
    }
}

fn mcp_call_identity(call: &FunctionToolCall, config: &Json) -> (identity: McpToolRef)
    ensures
        identity@ == call_identity(call@, config@),
{
    match McpDiscoveredToolParam::from_json(config) {
        Some(param) => McpToolRef {
            server_label: param.server_label,
            tool_name: param.tool_name,
        },
        None => McpToolRef { server_label: String::new(), tool_name: call.name.clone() },
    }
}

/// What a failed output says of the error: its field `error` where that says anything,
/// else all of it.
pub open spec fn error_text(output: Seq<char>, parsed: Option<JsonView>) -> Seq<char> {
    match parsed {
        Some(value) => match crate::json::text_of(crate::json::field(value, "error"@)) {
            Some(error) if !crate::text::blank(error) => error,
            _ => output,
        },
        None => output,
    }
}

fn error_text_from_output(output: &str, parsed: &Option<Json>) -> (text: String)
    ensures
        text@ == error_text(output@, crate::data::opt_view(*parsed)),
{
    if let Some(value) = parsed {
        if let Some(error) = value.get_str("error") {
            if !is_blank(error) {
                return error.to_owned();
            }
        }
    }
    output.to_owned()
}

/// Arguments, or an empty object where they are no JSON.
pub open spec fn arguments_or_empty(arguments: Option<JsonView>) -> JsonView {
    match arguments {
        Some(value) => value,
        None => JsonView::Object(Map::empty()),
    }
}

/// The public item of a call that ended, with its output and arguments parsed.
pub open spec fn ended_item(
    call: FunctionToolCallView,
    output: Seq<char>,
    parsed: Option<JsonView>,
    arguments: Option<JsonView>,
    status: GatewayCallStatus,
    config: JsonView,
    fresh: Seq<char>,
) -> OutputItemView {
    let identity = call_identity(call, config);
    OutputItemView::McpToolCall(
        McpToolCallView {
            id: crate::ids::output_id("mcp_"@, call.id, call.call_id, fresh),
            server: identity.server_label,
            tool: identity.tool_name,
            arguments: arguments_or_empty(arguments),
            status,
            result: if status == GatewayCallStatus::Completed {
                Some(
                    match parsed {
                        Some(value) => value,
                        None => JsonView::Text(output),
                    },
                )
            } else {
                None
            },
            error: if status == GatewayCallStatus::Failed {
                Some(error_text(output, parsed))
            } else {
                None
            },
        },
    )
}

/// The public item of a call that ended, with its output and arguments parsed.
pub fn output_item_with(
    call: &FunctionToolCall,
    output: &str,
    parsed: &Option<Json>,
    arguments: &Option<Json>,
    status: GatewayCallStatus,
    config: &Json,
    fresh: &str,
) -> (item: OutputItem)
    ensures
        item@ == ended_item(
            call@,
            output@,
            crate::data::opt_view(*parsed),
            crate::data::opt_view(*arguments),
            status,
            config@,
            fresh@,
        ),
{
    let identity = mcp_call_identity(call, config);
    let arguments = match arguments {
        Some(value) => value.copy(),
        None => Json::Object(JsonObject::new()),
    };
    let result = if status == GatewayCallStatus::Completed {
        match parsed {
            Some(value) => Some(value.copy()),
            None => Some(Json::text(output)),
        }
    } else {
        None
    };
    let error = if status == GatewayCallStatus::Failed {
        Some(error_text_from_output(output, parsed))
    } else {
        None
    };
    OutputItem::McpToolCall(
        McpToolCall {
            id: call_output_id("mcp_", call.id.as_str(), call.call_id.as_str(), fresh),
            server: identity.server_label,
            tool: identity.tool_name,
            arguments,
            status,
            result,
            error,
        },
    )
}

/// The public item of a call that ended.
pub fn output_item(
    call: &FunctionToolCall,
    output: &ToolOutput,
    status: GatewayCallStatus,
    config: &Json,
) -> (item: OutputItem)
    ensures
        exists|fresh: Seq<char>|
            crate::ids::is_uuid7(fresh) && item@ == #[trigger] ended_item(
                call@,
                output@.output,
                crate::json::parsed_json(output@.output),
                crate::json::parsed_json(call@.arguments),
                status,
                config@,
                fresh,
            ),
{
    let parsed = Json::parse(output.output.as_str());
    let arguments = Json::parse(call.arguments.as_str());
    let fresh = fresh_uuid();
    output_item_with(
        call,
        output.output.as_str(),
        &parsed,
        &arguments,
        status,
        config,
        fresh.as_str(),
    )
}

/// The public item of a call that has begun, with its arguments parsed.
pub open spec fn begun_item(
    call: FunctionToolCallView,
    arguments: Option<JsonView>,
    config: JsonView,
    fresh: Seq<char>,
) -> OutputItemView {
    let identity = call_identity(call, config);
    OutputItemView::McpToolCall(
        McpToolCallView {
            id: crate::ids::output_id("mcp_"@, call.id, call.call_id, fresh),
            server: identity.server_label,
            tool: identity.tool_name,
            arguments: arguments_or_empty(arguments),
            status: GatewayCallStatus::InProgress,
            result: None,
            error: None,
        },
    )
}

/// The public item of a call that has begun, with its arguments parsed.
pub fn started_output_item_with(
    call: &FunctionToolCall,
    arguments: &Option<Json>,
    config: &Json,
    fresh: &str,
) -> (item: OutputItem)
    ensures
        item@ == begun_item(call@, crate::data::opt_view(*arguments), config@, fresh@),
{
    let identity = mcp_call_identity(call, config);
    let arguments = match arguments {
        Some(value) => value.copy(),
        None => Json::Object(JsonObject::new()),
    };
    OutputItem::McpToolCall(
        McpToolCall {
            id: call_output_id("mcp_", call.id.as_str(), call.call_id.as_str(), fresh),
            server: identity.server_label,
            tool: identity.tool_name,
            arguments,
            status: GatewayCallStatus::InProgress,
            result: None,
            error: None,
        },
    )
}

/// The public item of a call that has begun.
pub fn started_output_item(call: &FunctionToolCall, config: &Json) -> (item: OutputItem)
    ensures
        exists|fresh: Seq<char>|
            crate::ids::is_uuid7(fresh) && item@ == #[trigger] begun_item(
                call@,
                crate::json::parsed_json(call@.arguments),
                config@,
                fresh,
            ),
{
    let arguments = Json::parse(call.arguments.as_str());
    let fresh = fresh_uuid();
    started_output_item_with(call, &arguments, config, fresh.as_str())
}

/// Which tool of which server each internal name is.
#[derive(Debug)]
pub struct McpToolMap {
    pub tools: Table<String, McpToolRef>,
}

impl View for McpToolMap {
    type V = Map<Seq<char>, McpToolRefView>;

    open spec fn view(&self) -> Map<Seq<char>, McpToolRefView> {
        self.tools@
    }
}

/// Whether any name is of a server's tool.
pub open spec fn has_server(map: Map<Seq<char>, McpToolRefView>, server_label: Seq<char>) -> bool {
    exists|name: Seq<char>| #[trigger]
        map.contains_key(name) && map[name].server_label == server_label
}

/// Whether the function with an internal name was called before its server was loaded.
pub open spec fn called_too_early(
    map: Map<Seq<char>, McpToolRefView>,
    loads: Map<Seq<char>, usize>,
    calls: Map<Seq<char>, usize>,
    name: Seq<char>,
) -> bool {
    &&& map.contains_key(name)
    &&& calls.contains_key(name)
    &&& loads.contains_key(map[name].server_label)
    &&& calls[name] < loads[map[name].server_label]
}

impl McpToolMap {
    /// No names are known yet.
    pub fn new() -> (map: McpToolMap)
        ensures
            map@ == Map::<Seq<char>, McpToolRefView>::empty(),
    {
        McpToolMap { tools: Table::new() }
    }

    /// Notes which tool an internal name is.
    pub fn record(&mut self, internal_name: String, tool: McpToolRef)
        ensures
            final(self)@ == old(self)@.insert(internal_name@, tool@),
    {
        self.tools.insert(internal_name, tool);
    }

    /// Which tool an internal name is.
    pub fn tool_ref(&self, internal_name: &str) -> (tool: Option<&McpToolRef>)
        ensures
            tool is Some == self@.contains_key(internal_name@),
            tool matches Some(t) ==> t@ == self@[internal_name@],
    {
        self.tools.get(&internal_name.to_owned())
    }

    /// Whether any name is of a server's tool.
    pub fn contains_server_label(&self, server_label: &str) -> (yes: bool)
        ensures
            yes == has_server(self@, server_label@),
    {
        let n: usize = self.tools.len();
        let ghost keys = self.tools.keys();
        let mut i: usize = 0;
        while i < n
            invariant
                i <= n == keys.len(),
                keys == self.tools.keys(),
                forall|k: Seq<char>| self.tools@.contains_key(k) <==> keys.contains(k),
                forall|j: int|
                    0 <= j < i ==> self.tools@[#[trigger] keys[j]].server_label != server_label@,
            decreases n - i,
        {
            let tool = self.tools.value_at(i);
            if same_text(tool.server_label.as_str(), server_label) {
                proof {
                    assert(self@.contains_key(keys[i as int]));
                }
                return true;
            }
            i = i + 1;
        }
        proof {
            assert forall|name: Seq<char>| #[trigger]
                self@.contains_key(name) implies self@[name].server_label != server_label@ by {
                assert(keys.contains(name));
                let j = choose|j: int| 0 <= j < keys.len() && keys[j] == name;
                assert(self.tools@[keys[j]].server_label != server_label@);
            }
        }
        false
    }

    /// Whether the history calls any function before its server was loaded.
    pub fn resolves_call_before_load(
        &self,
        loads: &Table<String, usize>,
        calls: &Table<String, usize>,
    ) -> (yes: bool)
        ensures
            yes == exists|name: Seq<char>| #[trigger] called_too_early(self@, loads@, calls@, name),
    {
        let n: usize = self.tools.len();
        let ghost keys = self.tools.keys();
        let mut i: usize = 0;
        while i < n
            invariant
                i <= n == keys.len(),
                keys == self.tools.keys(),
                forall|k: Seq<char>| self.tools@.contains_key(k) <==> keys.contains(k),
                forall|j: int|
                    0 <= j < i ==> !called_too_early(self@, loads@, calls@, #[trigger] keys[j]),
            decreases n - i,
        {
            let name = self.tools.key_at(i);
            let tool = self.tools.value_at(i);
            if let Some(called) = calls.get(name) {
                if let Some(loaded) = loads.get(&tool.server_label) {
                    if *called < *loaded {
                        proof {
                            assert(called_too_early(self@, loads@, calls@, keys[i as int]));
                        }
                        return true;
                    }
                }
            }
            i = i + 1;
        }
        proof {
            assert forall|name: Seq<char>| !#[trigger] called_too_early(
                self@,
                loads@,
                calls@,
                name,
            ) by {
                if self@.contains_key(name) {
                    assert(keys.contains(name));
                    let j = choose|j: int| 0 <= j < keys.len() && keys[j] == name;
                    assert(!called_too_early(self@, loads@, calls@, keys[j]));
                }
            }
        }
        false
    }
}

impl FromJson for McpCallResult {
    /// An answer as the protocol writes it. Its content as text has the fields of each part
    /// sorted by name.
    open spec fn of_json(value: JsonView) -> Option<McpCallResultView> {
        match value {
            JsonView::Object(fields) => match (
                crate::wire::values_or_empty(fields, "content"@),
                crate::wire::opt_bool(fields, "isError"@),
            ) {
                (Some(content), Some(is_error)) => Some(
                    McpCallResultView {
                        content,
                        content_text: crate::json::json_text(JsonView::Array(content)),
                        structured_content: crate::custom::non_null(
                            crate::json::object_field(fields, "structuredContent"@),
                        ),
                        is_error,
                    },
                ),
                _ => None,
            },
            _ => None,
        }
    }

    fn from_json(value: &Json) -> (out: Option<McpCallResult>) {
        let fields = match value {
            Json::Object(fields) => fields,
            _ => {
                return None;
            },
        };
        match (
            crate::wire::read_values_or_empty(fields, "content"),
            crate::wire::read_opt_bool(fields, "isError"),
        ) {
            (Some(content), Some(is_error)) => {
                let written = Json::Array(copy_vec(&content));
                proof {
                    assert(crate::json::array_view(written->Array_0@) =~= crate::data::views(
                        content@,
                    ));
                }
                Some(
                    McpCallResult {
                        content,
                        content_text: written.to_text(),
                        structured_content: crate::custom::copy_non_null(
                            fields.get("structuredContent"),
                        ),
                        is_error,
                    },
                )
            },
            _ => None,
        }
    }
}

} // verus!
