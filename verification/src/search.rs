//! Request-scoped tool-search state, derived from a request's declarations and
//! its fully rehydrated public history.
use vstd::prelude::*;
#[allow(unused_imports)]
use vstd::string::*;

use crate::data::{copy_opt, copy_opt_vec, copy_vec, Data};
#[allow(unused_imports)]
use crate::definitions::{
    canonical_definition, conflicting_definition, index_initial_definitions,
    initial_withheld_function_names, load_definition, loaded_tool_identity, member_position,
    record_position, sanitize_for_persistence, withheld_function_history_call, DefinitionRecord,
    DefinitionRecordView, Definitions, DefinitionsView, LoadedToolIdentity, LoadedToolIdentityView,
    NamespaceMemberRecord, NamespaceMemberRecordView,
};
#[allow(unused_imports)]
use crate::error::{
    config_error, invalid_upstream_search_call, ToolError, ToolErrorView,
};
use crate::items::{
    FunctionToolResultMessage, InputFunctionToolCall, InputItem, InputToolSearchCall, MessageStatus,
    ResponsesInput, ToolSearchCall, ToolSearchOutputMessage,
};
#[allow(unused_imports)]
use crate::items::{
    FunctionToolResultMessageView, InputFunctionToolCallView, InputItemView,
    InputToolSearchCallView, ResponsesInputView, ToolSearchCallView, ToolSearchOutputMessageView,
};
#[allow(unused_imports)]
use crate::json::{Json, JsonObject, JsonView};
use crate::names::{model_visible_namespace_member_name, validate_model_visible_declared_names};
use crate::payload::RequestPayload;
#[allow(unused_imports)]
use crate::payload::RequestPayloadView;
use crate::readiness::ToolSearchReadiness;
use crate::tables::{Keys, Table};
use crate::text::{
    concat, concat3, count_part, hex, is_blank, join, same_text, stable_hash, strip_prefix, trim,
    trim_end_matches, yes_str,
};
use crate::tools::{
    CodexNamespaceMember, CodexNamespaceToolParam, FunctionTool, FunctionToolParam, ResponsesTool,
    ToolChoice, ToolSearchExecution, ToolSearchStatus, ToolSearchToolParam,
};
#[allow(unused_imports)]
use crate::tools::{
    AllowedToolView, CodexNamespaceMemberView, CodexNamespaceToolParamView, FunctionToolParamView,
    FunctionToolView, McpToolParamView, ResponsesToolView, ToolChoiceView, ToolSearchToolParamView,
};

verus! {

/// The public identity of a tool-search call: kept where it is public already,
/// else made from the function call's identity.
pub open spec fn search_item_id(item_id: Seq<char>) -> Seq<char> {
    if crate::text::has_prefix(item_id, "tsc_"@) && item_id.len() > "tsc_"@.len() {
        item_id
    } else if crate::text::has_prefix(item_id, "fc_"@) && item_id.len() > "fc_"@.len() {
        "tsc_"@ + item_id.skip("fc_"@.len() as int)
    } else {
        "tsc_"@ + crate::text::hex_text(
            crate::text::fnv1a(vstd::utf8::encode_utf8("tool_search_item:"@ + item_id)) as nat,
            16,
        )
    }
}

/// The public identity of a tool-search call.
pub fn public_item_id(item_id: &str) -> (id: String)
    ensures
        id@ == search_item_id(item_id@),
{
    if let Some(suffix) = strip_prefix(item_id, "tsc_") {
        if !suffix.as_str().is_empty() {
            return item_id.to_owned();
        }
    }
    if let Some(suffix) = strip_prefix(item_id, "fc_") {
        if !suffix.as_str().is_empty() {
            return concat("tsc_", suffix.as_str());
        }
    }
    let domain_separated = concat("tool_search_item:", item_id);
    concat("tsc_", hex(stable_hash(domain_separated.as_str()), 16).as_str())
}

/// Every public identity of a tool-search call begins with `tsc_` and says more,
/// and making it public once more changes nothing.
pub proof fn search_item_id_is_public(item_id: Seq<char>)
    ensures
        crate::text::has_prefix(search_item_id(item_id), "tsc_"@),
        search_item_id(item_id).len() > "tsc_"@.len(),
        search_item_id(search_item_id(item_id)) == search_item_id(item_id),
{
    let id = search_item_id(item_id);
    reveal_strlit("tsc_");
    reveal_strlit("fc_");
    crate::text::hex_text_length(
        crate::text::fnv1a(vstd::utf8::encode_utf8("tool_search_item:"@ + item_id)) as nat,
        16,
    );
    if !(crate::text::has_prefix(item_id, "tsc_"@) && item_id.len() > 4) {
        assert(id.take(4) =~= "tsc_"@);
    }
}

/// The public item of a finished tool-search call, or the error that answers a
/// malformed one.
pub open spec fn output_item_of(
    item_id: Seq<char>,
    call_id: Seq<char>,
    arguments: Option<JsonView>,
) -> Result<
    ToolSearchCallView,
    ToolErrorView,
> {
    if crate::text::blank(item_id) || crate::text::blank(call_id) {
        Err(crate::error::invalid_search_call())
    } else {
        match arguments {
            Some(JsonView::Object(fields)) => Ok(
                ToolSearchCallView {
                    id: search_item_id(item_id),
                    call_id,
                    execution: ToolSearchExecution::Client,
                    arguments: fields,
                    status: ToolSearchStatus::Completed,
                },
            ),
            _ => Err(crate::error::invalid_search_call()),
        }
    }
}

/// The public item of a finished tool-search call with parsed arguments.
pub fn output_item_from_json(
    item_id: &str,
    call_id: &str,
    arguments: &Option<Json>,
) -> (out: Result<
    ToolSearchCall,
    ToolError,
>)
    ensures
        crate::error::outcome(out) == output_item_of(
            item_id@,
            call_id@,
            crate::data::opt_view(*arguments),
        ),
{
    if is_blank(item_id) || is_blank(call_id) {
        return Err(invalid_upstream_search_call());
    }
    match arguments {
        Some(Json::Object(fields)) => Ok(
            ToolSearchCall {
                id: public_item_id(item_id),
                call_id: call_id.to_owned(),
                execution: ToolSearchExecution::Client,
                arguments: fields.copy(),
                status: ToolSearchStatus::Completed,
            },
        ),
        _ => Err(invalid_upstream_search_call()),
    }
}

/// The public item of a finished tool-search call.
pub fn public_output_item(item_id: &str, call_id: &str, arguments: &str) -> (out: Result<
    ToolSearchCall,
    ToolError,
>)
    ensures
        crate::error::outcome(out) == output_item_of(
            item_id@,
            call_id@,
            crate::json::parsed_json(arguments@),
        ),
{
    if is_blank(item_id) || is_blank(call_id) {
        return Err(invalid_upstream_search_call());
    }
    let parsed = Json::parse(arguments);
    output_item_from_json(item_id, call_id, &parsed)
}

/// The text of a field that must be there and not blank.
pub open spec fn non_blank_field(
    fields: Map<Seq<char>, JsonView>,
    key: Seq<char>,
) -> Option<Seq<char>> {
    match crate::json::text_field(fields, key) {
        Some(t) if !crate::text::blank(t) => Some(t),
        _ => None,
    }
}

/// The text of a field that must be there and not blank.
pub fn required_non_blank_string<'a>(fields: &'a JsonObject, key: &str) -> (out: Result<
    &'a str,
    ToolError,
>)
    ensures
        match non_blank_field(fields@, key@) {
            Some(t) => out matches Ok(s) && s@ == t,
            None => out matches Err(e) && e@ == crate::error::invalid_search_call(),
        },
{
    match fields.get_str(key) {
        Some(t) => if is_blank(t) {
            Err(invalid_upstream_search_call())
        } else {
            Ok(t)
        },
        None => Err(invalid_upstream_search_call()),
    }
}

/// Whether raw fields are those of a finished, unqualified call of the function
/// that stands for tool search.
pub open spec fn is_finished_search_call(fields: Map<Seq<char>, JsonView>) -> bool {
    &&& crate::json::text_field(fields, "type"@) == Some("function_call"@)
    &&& crate::json::text_field(fields, "name"@) == Some("tool_search"@)
    &&& crate::json::text_field(fields, "status"@) == Some("completed"@)
    &&& crate::custom::non_null(crate::json::object_field(fields, "namespace"@)) is None
}

/// The public item of a raw finished call of the function that stands for tool search.
pub open spec fn raw_output_item(fields: Map<Seq<char>, JsonView>) -> Result<
    ToolSearchCallView,
    ToolErrorView,
> {
    match (
        non_blank_field(fields, "id"@),
        non_blank_field(fields, "call_id"@),
        non_blank_field(fields, "arguments"@),
    ) {
        (
            Some(id),
            Some(call_id),
            Some(arguments),
        ) if is_finished_search_call(fields) => output_item_of(
            id,
            call_id,
            crate::json::parsed_json(arguments),
        ),
        _ => Err(crate::error::invalid_search_call()),
    }
}

/// The public item of a raw finished call of the function that stands for tool
/// search.
pub fn public_output_item_from_raw(fields: &JsonObject) -> (out: Result<ToolSearchCall, ToolError>)
    ensures
        crate::error::outcome(out) == raw_output_item(fields@),
{
    let qualified = match fields.get("namespace") {
        Some(v) => !v.is_null(),
        None => false,
    };
    if !fields.field_is("type", "function_call") || !fields.field_is("name", "tool_search")
        || !fields.field_is("status", "completed") || qualified {
        return Err(invalid_upstream_search_call());
    }
    let id = match required_non_blank_string(fields, "id") {
        Ok(t) => t,
        Err(e) => {
            return Err(e);
        },
    };
    let call_id = match required_non_blank_string(fields, "call_id") {
        Ok(t) => t,
        Err(e) => {
            return Err(e);
        },
    };
    let arguments = match required_non_blank_string(fields, "arguments") {
        Ok(t) => t,
        Err(e) => {
            return Err(e);
        },
    };
    public_output_item(id, call_id, arguments)
}

/// The public item of a tool-search call that has begun, as JSON.
pub open spec fn added_item(item_id: Seq<char>, call_id: Seq<char>) -> Map<Seq<char>, JsonView> {
    Map::<Seq<char>, JsonView>::empty()
        .insert("id"@, JsonView::Text(search_item_id(item_id)))
        .insert(
        "type"@,
        JsonView::Text("tool_search_call"@),
    ).insert("status"@, JsonView::Text("in_progress"@)).insert(
        "arguments"@,
        JsonView::Object(Map::empty()),
    ).insert("call_id"@, JsonView::Text(call_id)).insert("execution"@, JsonView::Text("client"@))
}

/// The public item of a tool-search call that has begun, as JSON.
pub fn public_added_item(item_id: &str, call_id: &str) -> (out: Result<JsonObject, ToolError>)
    ensures
        match out {
            Ok(item) => !crate::text::blank(item_id@) && !crate::text::blank(call_id@) && item@
                == added_item(item_id@, call_id@),
            Err(e) => (crate::text::blank(item_id@) || crate::text::blank(call_id@)) && e@
                == crate::error::invalid_search_call(),
        },
{
    if is_blank(item_id) || is_blank(call_id) {
        return Err(invalid_upstream_search_call());
    }
    let id = public_item_id(item_id);
    let mut item = JsonObject::new();
    item.set_str("id", id.as_str());
    item.set_str("type", "tool_search_call");
    item.set_str("status", "in_progress");
    item.set("arguments", Json::Object(JsonObject::new()));
    item.set_str("call_id", call_id);
    item.set_str("execution", "client");
    Ok(item)
}

/// What is known while the items of a history are read.
pub struct History {
    pub defs: Definitions,
    pub items: Vec<InputItem>,
    pub unresolved: Option<String>,
    pub completed_call_ids: Keys<String>,
    pub item_ids: Keys<String>,
}

/// The view of a [`History`].
#[verifier::ext_equal]
pub struct HistoryView {
    pub defs: DefinitionsView,
    pub items: Seq<InputItemView>,
    pub unresolved: Option<Seq<char>>,
    pub completed_call_ids: Set<Seq<char>>,
    pub item_ids: Set<Seq<char>>,
}

impl View for History {
    type V = HistoryView;

    open spec fn view(&self) -> HistoryView {
        HistoryView {
            defs: self.defs@,
            items: crate::data::views(self.items@),
            unresolved: crate::data::opt_view(self.unresolved),
            completed_call_ids: self.completed_call_ids@,
            item_ids: self.item_ids@,
        }
    }
}

/// A tool-search call of the history becomes the function call that the model
/// made: every identity is used once, and a call waits for its output.
pub open spec fn search_call_step(call: InputToolSearchCallView, h: HistoryView) -> Result<
    HistoryView,
    ToolErrorView,
> {
    if crate::text::blank(call.id) {
        Err(ToolErrorView::Config("tool_search_call id must not be blank"@))
    } else if crate::text::blank(call.call_id) {
        Err(ToolErrorView::Config("tool_search_call call_id must not be blank"@))
    } else if h.item_ids.contains(call.id) {
        Err(ToolErrorView::Config("duplicate tool_search_call item id"@))
    } else if h.unresolved is Some {
        Err(
            ToolErrorView::Config(
                "ambiguous tool-search history contains a call before the preceding call is resolved"@,
            ),
        )
    } else if h.completed_call_ids.contains(call.call_id) {
        Err(ToolErrorView::Config("duplicate tool_search_call call_id"@))
    } else {
        Ok(
            HistoryView {
                items: h.items.push(
                    InputItemView::FunctionCall(
                        InputFunctionToolCallView {
                            id: Some(call.id),
                            call_id: call.call_id,
                            name: "tool_search"@,
                            namespace: None,
                            arguments: crate::json::json_text(JsonView::Object(call.arguments)),
                            status: Some(MessageStatus::Completed),
                        },
                    ),
                ),
                unresolved: Some(call.call_id),
                item_ids: h.item_ids.insert(call.id),
                ..h
            },
        )
    }
}

/// Adds the function call of a search to the history. The search that is read from that
/// function call has the arguments of the one that it was made from.
fn prepare_search_call(
    call: &InputToolSearchCall,
    given: History,
) -> (out: Result<History, ToolError>)
    ensures
        crate::error::outcome(out) == search_call_step(call@, given@),
        out is Ok && crate::json::reads_back(JsonView::Object(call@.arguments))
            ==> output_item_of(
            call@.id,
            call@.call_id,
            crate::json::parsed_json(crate::json::json_text(JsonView::Object(call@.arguments))),
        ) == Ok::<ToolSearchCallView, ToolErrorView>(
            ToolSearchCallView {
                id: search_item_id(call@.id),
                call_id: call@.call_id,
                execution: ToolSearchExecution::Client,
                arguments: call@.arguments,
                status: ToolSearchStatus::Completed,
            },
        ),
{
    let mut h = given;
    if is_blank(call.id.as_str()) {
        return Err(config_error("tool_search_call id must not be blank"));
    }
    if is_blank(call.call_id.as_str()) {
        return Err(config_error("tool_search_call call_id must not be blank"));
    }
    if h.item_ids.contains(&call.id) {
        return Err(config_error("duplicate tool_search_call item id"));
    }
    if h.unresolved.is_some() {
        return Err(
            config_error(
                "ambiguous tool-search history contains a call before the preceding call is resolved",
            ),
        );
    }
    if h.completed_call_ids.contains(&call.call_id) {
        return Err(config_error("duplicate tool_search_call call_id"));
    }
    h.item_ids.insert(call.id.clone());
    h.unresolved = Some(call.call_id.clone());
    let arguments = Json::Object(call.arguments.copy()).to_text();
    let item = InputItem::FunctionCall(
        InputFunctionToolCall {
            id: Some(call.id.clone()),
            call_id: call.call_id.clone(),
            name: "tool_search".to_owned(),
            namespace: None,
            arguments,
            status: Some(MessageStatus::Completed),
        },
    );
    proof {
        crate::data::views_push(h.items@, item);
    }
    h.items.push(item);
    Ok(h)
}

/// Loads the first of the returned definitions, one after the other.
pub open spec fn load_all(
    tools: Seq<ResponsesToolView>,
    defs: DefinitionsView,
    trusted: Set<LoadedToolIdentityView>,
    position: Option<usize>,
    n: int,
) -> Result<DefinitionsView, ToolErrorView>
    decreases n,
{
    if n <= 0 {
        Ok(defs)
    } else {
        match load_all(tools, defs, trusted, position, n - 1) {
            Err(e) => Err(e),
            Ok(defs) => crate::definitions::load_spec(tools[n - 1], defs, trusted, position),
        }
    }
}

proof fn load_all_stop(
    tools: Seq<ResponsesToolView>,
    defs: DefinitionsView,
    trusted: Set<LoadedToolIdentityView>,
    position: Option<usize>,
    n: int,
    m: int,
)
    requires
        n <= m,
        load_all(tools, defs, trusted, position, n) is Err,
    ensures
        load_all(tools, defs, trusted, position, m) == load_all(tools, defs, trusted, position, n),
    decreases m - n,
{
    if n < m {
        load_all_stop(tools, defs, trusted, position, n, m - 1);
    }
}

fn load_definitions(
    tools: &Vec<ResponsesTool>,
    given: Definitions,
    trusted: &Keys<LoadedToolIdentity>,
    position: Option<usize>,
) -> (out: Result<Definitions, ToolError>)
    ensures
        crate::error::outcome(out) == load_all(
            crate::data::views(tools@),
            given@,
            trusted@,
            position,
            tools@.len() as int,
        ),
{
    let mut defs = given;
    let ghost all = crate::data::views(tools@);
    let ghost start = defs@;
    let mut i: usize = 0;
    while i < tools.len()
        invariant
            i <= tools@.len(),
            all == crate::data::views(tools@),
            start == given@,
            load_all(all, start, trusted@, position, i as int) == Ok::<_, ToolErrorView>(defs@),
        decreases tools@.len() - i,
    {
        match load_definition(&tools[i], defs, trusted, position) {
            Ok(next) => {
                defs = next;
            },
            Err(e) => {
                proof {
                    load_all_stop(all, start, trusted@, position, i + 1, tools@.len() as int);
                }
                return Err(e);
            },
        }
        i = i + 1;
    }
    Ok(defs)
}

/// What the model is shown of a definition that a search returned: all of a
/// function, but only name and description of a namespace or an MCP server.
pub open spec fn projected(tool: ResponsesToolView) -> Option<JsonView> {
    match tool {
        ResponsesToolView::Function(f) => Some(
            JsonView::Object(
                crate::wire_tools::function_param_fields(f).insert(
                    "type"@,
                    JsonView::Text("function"@),
                ),
            ),
        ),
        ResponsesToolView::Namespace(n) => Some(
            JsonView::Object(
                crate::wire::with_text(
                    Map::<Seq<char>, JsonView>::empty().insert(
                        "type"@,
                        JsonView::Text("namespace"@),
                    ).insert("name"@, JsonView::Text(n.name)),
                    "description"@,
                    n.description,
                ),
            ),
        ),
        ResponsesToolView::Mcp(m) => Some(
            JsonView::Object(
                crate::wire::with_text(
                    Map::<Seq<char>, JsonView>::empty()
                        .insert("type"@, JsonView::Text("mcp"@))
                        .insert(
                        "server_label"@,
                        JsonView::Text(m.server_label),
                    ),
                    "server_description"@,
                    m.server_description,
                ),
            ),
        ),
        _ => None,
    }
}

fn project_tool(tool: &ResponsesTool) -> (out: Option<Json>)
    ensures
        crate::data::opt_view(out) == projected(tool@),
{
    match tool {
        ResponsesTool::Function(f) => {
            let mut fields = crate::wire_tools::function_param_to_fields(f);
            fields.set_str("type", "function");
            Some(Json::Object(fields))
        },
        ResponsesTool::Namespace(n) => {
            let mut fields = JsonObject::new();
            fields.set_str("type", "namespace");
            fields.set_str("name", n.name.as_str());
            crate::wire::set_text(&mut fields, "description", &n.description);
            Some(Json::Object(fields))
        },
        ResponsesTool::Mcp(m) => {
            let mut fields = JsonObject::new();
            fields.set_str("type", "mcp");
            fields.set_str("server_label", m.server_label.as_str());
            crate::wire::set_text(&mut fields, "server_description", &m.server_description);
            Some(Json::Object(fields))
        },
        _ => None,
    }
}

/// What the model is shown of the first of the returned definitions.
pub open spec fn projected_all(tools: Seq<ResponsesToolView>, n: int) -> Option<Seq<JsonView>>
    decreases n,
{
    if n <= 0 {
        Some(Seq::empty())
    } else {
        match (projected_all(tools, n - 1), projected(tools[n - 1])) {
            (Some(rest), Some(tool)) => Some(rest.push(tool)),
            _ => None,
        }
    }
}

proof fn projected_all_stop(tools: Seq<ResponsesToolView>, n: int, m: int)
    requires
        n <= m,
        projected_all(tools, n) is None,
    ensures
        projected_all(tools, m) is None,
    decreases m - n,
{
    if n < m {
        projected_all_stop(tools, n, m - 1);
    }
}

/// What the model is shown of the returned definitions.
pub fn model_visible_output_tools(tools: &Vec<ResponsesTool>) -> (out: Result<Vec<Json>, ToolError>)
    ensures
        match projected_all(crate::data::views(tools@), tools@.len() as int) {
            Some(shown) => out matches Ok(v) && crate::json::array_view(v@) == shown,
            None => out matches Err(e) && e@ == ToolErrorView::Config(
                "tool_search_output contains an unsupported model-output definition"@,
            ),
        },
{
    let mut shown: Vec<Json> = Vec::new();
    let ghost all = crate::data::views(tools@);
    let mut i: usize = 0;
    proof {
        assert(crate::json::array_view(shown@) =~= Seq::empty());
    }
    while i < tools.len()
        invariant
            i <= tools@.len(),
            all == crate::data::views(tools@),
            projected_all(all, i as int) == Some(crate::json::array_view(shown@)),
        decreases tools@.len() - i,
    {
        match project_tool(&tools[i]) {
            Some(tool) => {
                let ghost before = shown@;
                shown.push(tool);
                proof {
                    assert(crate::json::array_view(shown@) =~= crate::json::array_view(before).push(tool@));
                }
            },
            None => {
                proof {
                    projected_all_stop(all, i + 1, tools@.len() as int);
                }
                return Err(
                    config_error(
                        "tool_search_output contains an unsupported model-output definition",
                    ),
                );
            },
        }
        i = i + 1;
    }
    Ok(shown)
}

/// A tool-search output of the history becomes the function call's output: it
/// answers the call that waits, and its definitions are loaded.
pub open spec fn search_output_step(
    output: ToolSearchOutputMessageView,
    h: HistoryView,
    trusted: Set<LoadedToolIdentityView>,
    position: Option<usize>,
) -> Result<HistoryView, ToolErrorView> {
    if crate::text::blank(output.call_id) {
        Err(ToolErrorView::Config("tool_search_output call_id must not be blank"@))
    } else if h.completed_call_ids.contains(output.call_id) {
        Err(ToolErrorView::Config("duplicate tool_search_output call_id"@))
    } else {
        match h.unresolved {
            None => Err(ToolErrorView::Config("orphan tool_search_output has no unresolved call"@)),
            Some(pending) => if pending != output.call_id {
                Err(
                    ToolErrorView::Config(
                        "tool_search_output call_id does not match the preceding unresolved call"@,
                    ),
                )
            } else {
                match load_all(output.tools, h.defs, trusted, position, output.tools.len() as int) {
                    Err(e) => Err(e),
                    Ok(defs) => match projected_all(output.tools, output.tools.len() as int) {
                        None => Err(
                            ToolErrorView::Config(
                                "tool_search_output contains an unsupported model-output definition"@,
                            ),
                        ),
                        Some(shown) => Ok(
                            HistoryView {
                                defs,
                                items: h.items.push(
                                    InputItemView::FunctionCallOutput(
                                        FunctionToolResultMessageView {
                                            call_id: output.call_id,
                                            output: crate::json::json_text(
                                                JsonView::Object(
                                                    Map::<Seq<char>, JsonView>::empty().insert(
                                                        "tools"@,
                                                        JsonView::Array(shown),
                                                    ),
                                                ),
                                            ),
                                        },
                                    ),
                                ),
                                unresolved: None,
                                completed_call_ids: h.completed_call_ids.insert(output.call_id),
                                item_ids: h.item_ids,
                            },
                        ),
                    },
                }
            },
        }
    }
}

fn prepare_search_output(
    output: &ToolSearchOutputMessage,
    given: History,
    trusted: &Keys<LoadedToolIdentity>,
    position: Option<usize>,
) -> (out: Result<History, ToolError>)
    ensures
        crate::error::outcome(out) == search_output_step(output@, given@, trusted@, position),
{
    if is_blank(output.call_id.as_str()) {
        return Err(config_error("tool_search_output call_id must not be blank"));
    }
    let History { defs, items, unresolved, completed_call_ids, item_ids } = given;
    if completed_call_ids.contains(&output.call_id) {
        return Err(config_error("duplicate tool_search_output call_id"));
    }
    match &unresolved {
        None => {
            return Err(config_error("orphan tool_search_output has no unresolved call"));
        },
        Some(pending) => {
            if !same_text(pending.as_str(), output.call_id.as_str()) {
                return Err(
                    config_error(
                        "tool_search_output call_id does not match the preceding unresolved call",
                    ),
                );
            }
        },
    }
    let defs = match load_definitions(&output.tools, defs, trusted, position) {
        Ok(defs) => defs,
        Err(e) => {
            return Err(e);
        },
    };
    let shown = match model_visible_output_tools(&output.tools) {
        Ok(shown) => shown,
        Err(e) => {
            return Err(e);
        },
    };
    let mut fields = JsonObject::new();
    fields.set("tools", Json::Array(shown));
    let text = Json::Object(fields).to_text();
    let mut completed_call_ids = completed_call_ids;
    completed_call_ids.insert(output.call_id.clone());
    let mut items = items;
    let item = InputItem::FunctionCallOutput(
        FunctionToolResultMessage { call_id: output.call_id.clone(), output: text },
    );
    proof {
        crate::data::views_push(items@, item);
    }
    items.push(item);
    Ok(History { defs, items, unresolved: None, completed_call_ids, item_ids })
}

/// The record of a namespace's member, where the namespace and the member are
/// known.
pub open spec fn known_member(
    definitions: Seq<DefinitionRecordView>,
    namespace: Seq<char>,
    name: Seq<char>,
) -> Option<NamespaceMemberRecordView> {
    match crate::definitions::find_record(definitions, namespace, 0) {
        Some(at) => match (definitions[at].identity, definitions[at].members) {
            (
                LoadedToolIdentityView::Namespace(_),
                Some(members),
            ) => match crate::definitions::find_member(
                members,
                name,
                0,
            ) {
                Some(k) => Some(members[k]),
                None => None,
            },
            _ => None,
        },
        None => None,
    }
}

/// A function call of the history: refused where the function was not loaded at
/// that point, else remembered where it is not known.
pub open spec fn history_call_step(
    call: InputFunctionToolCallView,
    defs: DefinitionsView,
    position: usize,
) -> Result<
    DefinitionsView,
    ToolErrorView,
> {
    match call.namespace {
        Some(namespace) => match known_member(defs.definitions, namespace, call.name) {
            Some(member) => if member.loaded {
                Ok(defs)
            } else {
                Err(crate::definitions::withheld_history_call())
            },
            None => Ok(
                DefinitionsView {
                    prior_unknown_namespace_calls: defs.prior_unknown_namespace_calls.insert(
                        (namespace, call.name),
                    ),
                    ..defs
                },
            ),
        },
        None => if defs.withheld_function_names.contains(call.name) {
            Err(crate::definitions::withheld_history_call())
        } else {
            Ok(
                DefinitionsView {
                    unqualified_call_positions: crate::definitions::with_position(
                        defs.unqualified_call_positions,
                        call.name,
                        Some(position),
                    ),
                    ..defs
                },
            )
        },
    }
}

/// Whether the member of a namespace is known, and then whether it is loaded.
fn known_member_loaded(
    definitions: &Vec<DefinitionRecord>,
    namespace: &str,
    name: &str,
) -> (loaded: Option<bool>)
    ensures
        match known_member(crate::data::views(definitions@), namespace@, name@) {
            Some(member) => loaded == Some(member.loaded),
            None => loaded is None,
        },
{
    match record_position(definitions, namespace) {
        Some(at) => match (&definitions[at].identity, &definitions[at].members) {
            (
                LoadedToolIdentity::Namespace(_),
                Some(members),
            ) => match member_position(members, name) {
                Some(k) => Some(members[k].loaded),
                None => None,
            },
            _ => None,
        },
        None => None,
    }
}

fn ensure_history_call_is_available(
    call: &InputFunctionToolCall,
    given: Definitions,
    position: usize,
) -> (out: Result<Definitions, ToolError>)
    ensures
        crate::error::outcome(out) == history_call_step(call@, given@, position),
{
    let mut defs = given;
    match &call.namespace {
        Some(namespace) => {
            match known_member_loaded(&defs.definitions, namespace.as_str(), call.name.as_str()) {
                Some(loaded) => {
                    if !loaded {
                        return Err(withheld_function_history_call());
                    }
                },
                None => {
                    defs.prior_unknown_namespace_calls.insert(
                        (namespace.clone(), call.name.clone()),
                    );
                },
            }
        },
        None => {
            if defs.withheld_function_names.contains(&call.name) {
                return Err(withheld_function_history_call());
            }
            defs.unqualified_call_positions.insert_new(call.name.clone(), position);
        },
    }
    Ok(defs)
}

/// One item of the history.
pub open spec fn history_step(
    item: InputItemView,
    h: HistoryView,
    trusted: Set<LoadedToolIdentityView>,
    position: usize,
) -> Result<HistoryView, ToolErrorView> {
    match item {
        InputItemView::ToolSearchCall(call) => search_call_step(call, h),
        InputItemView::ToolSearchOutput(output) => search_output_step(
            output,
            h,
            trusted,
            Some(position),
        ),
        InputItemView::FunctionCall(call) => match history_call_step(call, h.defs, position) {
            Err(e) => Err(e),
            Ok(defs) => Ok(HistoryView { defs, items: h.items.push(item), ..h }),
        },
        _ => Ok(HistoryView { items: h.items.push(item), ..h }),
    }
}

/// The first items of the history, one after the other.
pub open spec fn read_history(
    items: Seq<InputItemView>,
    h: HistoryView,
    trusted: Set<LoadedToolIdentityView>,
    n: int,
) -> Result<HistoryView, ToolErrorView>
    decreases n,
{
    if n <= 0 {
        Ok(h)
    } else {
        match read_history(items, h, trusted, n - 1) {
            Err(e) => Err(e),
            Ok(h) => history_step(items[n - 1], h, trusted, (n - 1) as usize),
        }
    }
}

proof fn read_history_stop(
    items: Seq<InputItemView>,
    h: HistoryView,
    trusted: Set<LoadedToolIdentityView>,
    n: int,
    m: int,
)
    requires
        n <= m,
        read_history(items, h, trusted, n) is Err,
    ensures
        read_history(items, h, trusted, m) == read_history(items, h, trusted, n),
    decreases m - n,
{
    if n < m {
        read_history_stop(items, h, trusted, n, m - 1);
    }
}

/// The history before its first item.
pub open spec fn history_start(defs: DefinitionsView) -> HistoryView {
    HistoryView {
        defs,
        items: Seq::empty(),
        unresolved: None,
        completed_call_ids: Set::empty(),
        item_ids: Set::empty(),
    }
}

/// The definitions after a whole input, and the input as the model is shown it.
pub open spec fn prepared_history(
    input: ResponsesInputView,
    defs: DefinitionsView,
    trusted: Set<LoadedToolIdentityView>,
) -> Result<(DefinitionsView, ResponsesInputView), ToolErrorView> {
    match input {
        ResponsesInputView::Text(_) => Ok((defs, input)),
        ResponsesInputView::Items(items) => match read_history(
            items,
            history_start(defs),
            trusted,
            items.len() as int,
        ) {
            Err(e) => Err(e),
            Ok(h) => if h.unresolved is Some {
                Err(
                    ToolErrorView::Config(
                        "unresolved tool_search_call requires a matching completed tool_search_output"@,
                    ),
                )
            } else {
                Ok((h.defs, ResponsesInputView::Items(h.items)))
            },
        },
    }
}

fn history_item(
    item: &InputItem,
    given: History,
    trusted: &Keys<LoadedToolIdentity>,
    position: usize,
) -> (out: Result<History, ToolError>)
    ensures
        crate::error::outcome(out) == history_step(item@, given@, trusted@, position),
{
    match item {
        InputItem::ToolSearchCall(call) => prepare_search_call(call, given),
        InputItem::ToolSearchOutput(output) => prepare_search_output(
            output,
            given,
            trusted,
            Some(position),
        ),
        InputItem::FunctionCall(call) => {
            let History { defs, items, unresolved, completed_call_ids, item_ids } = given;
            match ensure_history_call_is_available(call, defs, position) {
                Err(e) => Err(e),
                Ok(defs) => {
                    let mut items = items;
                    let copy = item.copied();
                    proof {
                        crate::data::views_push(items@, copy);
                    }
                    items.push(copy);
                    Ok(History { defs, items, unresolved, completed_call_ids, item_ids })
                },
            }
        },
        _ => {
            let mut h = given;
            let copy = item.copied();
            proof {
                crate::data::views_push(h.items@, copy);
            }
            h.items.push(copy);
            Ok(h)
        },
    }
}

/// Reads a whole input.
pub fn prepare_history(
    input: &ResponsesInput,
    given: Definitions,
    trusted: &Keys<LoadedToolIdentity>,
) -> (out: Result<(Definitions, ResponsesInput), ToolError>)
    ensures
        match prepared_history(input@, given@, trusted@) {
            Ok(done) => out matches Ok(r) && r.0@ == done.0 && r.1@ == done.1,
            Err(e) => out matches Err(x) && x@ == e,
        },
{
    let items = match input {
        ResponsesInput::Text(_) => {
            return Ok((given, input.copied()));
        },
        ResponsesInput::Items(items) => items,
    };
    let ghost all = crate::data::views(items@);
    let ghost start = history_start(given@);
    let mut h = History {
        defs: given,
        items: Vec::new(),
        unresolved: None,
        completed_call_ids: Keys::new(),
        item_ids: Keys::new(),
    };
    proof {
        assert(h@ =~= start);
    }
    let mut i: usize = 0;
    while i < items.len()
        invariant
            i <= items@.len(),
            all == crate::data::views(items@),
            input@ == ResponsesInputView::Items(all),
            start == history_start(given@),
            read_history(all, start, trusted@, i as int) == Ok::<_, ToolErrorView>(h@),
        decreases items@.len() - i,
    {
        match history_item(&items[i], h, trusted, i) {
            Ok(next) => {
                h = next;
            },
            Err(e) => {
                proof {
                    read_history_stop(all, start, trusted@, i + 1, items@.len() as int);
                }
                return Err(e);
            },
        }
        i = i + 1;
    }
    if h.unresolved.is_some() {
        return Err(
            config_error(
                "unresolved tool_search_call requires a matching completed tool_search_output",
            ),
        );
    }
    Ok((h.defs, ResponsesInput::Items(h.items)))
}

/// The definition to load for one that was stored with an earlier response: the
/// declared one where it is the same but for what is not stored, none where only
/// declared ones count and it is not declared.
pub open spec fn restored_definition(
    restored: ResponsesToolView,
    defs: DefinitionsView,
    restore_only_declared: bool,
) -> Result<Option<ResponsesToolView>, ToolErrorView> {
    match crate::definitions::identity_of(restored) {
        Err(e) => Err(e),
        Ok(None) => Err(
            ToolErrorView::Config(
                "stored tool-search availability contains an unsupported definition"@,
            ),
        ),
        Ok(Some(identity)) => match crate::definitions::find_record(
            defs.definitions,
            crate::definitions::identity_name(identity),
            0,
        ) {
            None => Ok(
                if restore_only_declared {
                    None
                } else {
                    Some(restored)
                },
            ),
            Some(at) => {
                let record = defs.definitions[at];
                if record.identity != identity || record.public_index >= defs.public_tools.len() {
                    Ok(Some(restored))
                } else {
                    let declared = defs.public_tools[record.public_index as int];
                    if restored is Mcp && declared is Mcp {
                        if crate::definitions::canonical_of(crate::definitions::sanitized(declared))
                            != crate::definitions::canonical_of(restored) {
                            Err(
                                crate::definitions::conflict(
                                    crate::definitions::identity_name(identity),
                                ),
                            )
                        } else {
                            Ok(Some(declared))
                        }
                    } else {
                        Ok(Some(restored))
                    }
                }
            },
        },
    }
}

fn restored_definition_for_load(
    restored: &ResponsesTool,
    defs: &Definitions,
    restore_only_declared: bool,
) -> (out: Result<Option<ResponsesTool>, ToolError>)
    ensures
        crate::definitions::opt_outcome(out) == restored_definition(
            restored@,
            defs@,
            restore_only_declared,
        ),
{
    let identity = match loaded_tool_identity(restored) {
        Err(e) => {
            return Err(e);
        },
        Ok(None) => {
            return Err(
                config_error("stored tool-search availability contains an unsupported definition"),
            );
        },
        Ok(Some(identity)) => identity,
    };
    let at = match record_position(&defs.definitions, identity.name().as_str()) {
        Some(at) => at,
        None => {
            return Ok(
                if restore_only_declared {
                    None
                } else {
                    Some(restored.copied())
                },
            );
        },
    };
    let public_index: usize = defs.definitions[at].public_index;
    if !defs.definitions[at].identity.same(&identity) || public_index >= defs.public_tools.len() {
        return Ok(Some(restored.copied()));
    }
    let declared = &defs.public_tools[public_index];
    if let (ResponsesTool::Mcp(_), ResponsesTool::Mcp(_)) = (restored, declared) {
        let sanitized = sanitize_for_persistence(declared);
        if !canonical_definition(&sanitized).same(&canonical_definition(restored)) {
            return Err(conflicting_definition(identity.name().as_str()));
        }
        return Ok(Some(declared.copied()));
    }
    Ok(Some(restored.copied()))
}

/// The definitions after the first stored ones were loaded, and the identities
/// of those.
pub open spec fn restore_all(
    restored: Seq<ResponsesToolView>,
    defs: DefinitionsView,
    restore_only_declared: bool,
    n: int,
) -> Result<(DefinitionsView, Set<LoadedToolIdentityView>), ToolErrorView>
    decreases n,
{
    if n <= 0 {
        Ok((defs, Set::empty()))
    } else {
        match restore_all(restored, defs, restore_only_declared, n - 1) {
            Err(e) => Err(e),
            Ok(done) => match restored_definition(restored[n - 1], done.0, restore_only_declared) {
                Err(e) => Err(e),
                Ok(None) => Ok(done),
                Ok(Some(tool)) => match crate::definitions::load_spec(
                    tool,
                    done.0,
                    Set::empty(),
                    None,
                ) {
                    Err(e) => Err(e),
                    Ok(defs) => match crate::definitions::identity_of(tool) {
                        Ok(Some(identity)) => Ok((defs, done.1.insert(identity))),
                        Ok(None) => Err(
                            ToolErrorView::Config(
                                "stored tool-search availability contains an unsupported definition"@,
                            ),
                        ),
                        Err(e) => Err(e),
                    },
                },
            },
        }
    }
}

proof fn restore_all_stop(
    restored: Seq<ResponsesToolView>,
    defs: DefinitionsView,
    restore_only_declared: bool,
    n: int,
    m: int,
)
    requires
        n <= m,
        restore_all(restored, defs, restore_only_declared, n) is Err,
    ensures
        restore_all(restored, defs, restore_only_declared, m) == restore_all(
            restored,
            defs,
            restore_only_declared,
            n,
        ),
    decreases m - n,
{
    if n < m {
        restore_all_stop(restored, defs, restore_only_declared, n, m - 1);
    }
}

/// Loads the definitions that were stored with an earlier response.
pub fn restore_loaded_definitions(
    restored: &Vec<ResponsesTool>,
    given: Definitions,
    restore_only_declared: bool,
) -> (out: Result<(Definitions, Keys<LoadedToolIdentity>), ToolError>)
    ensures
        match restore_all(
            crate::data::views(restored@),
            given@,
            restore_only_declared,
            restored@.len() as int,
        ) {
            Ok(done) => out matches Ok(r) && r.0@ == done.0 && r.1@ == done.1,
            Err(e) => out matches Err(x) && x@ == e,
        },
{
    let ghost all = crate::data::views(restored@);
    let ghost start = given@;
    let ghost n = restored@.len() as int;
    let mut defs = given;
    let mut trusted: Keys<LoadedToolIdentity> = Keys::new();
    let none: Keys<LoadedToolIdentity> = Keys::new();
    let mut i: usize = 0;
    while i < restored.len()
        invariant
            i <= restored@.len(),
            n == restored@.len(),
            all == crate::data::views(restored@),
            start == given@,
            none@ == Set::<LoadedToolIdentityView>::empty(),
            restore_all(all, start, restore_only_declared, i as int) == Ok::<_, ToolErrorView>(
                (defs@, trusted@),
            ),
        decreases restored@.len() - i,
    {
        match restored_definition_for_load(&restored[i], &defs, restore_only_declared) {
            Err(e) => {
                proof {
                    restore_all_stop(all, start, restore_only_declared, i + 1, n);
                }
                return Err(e);
            },
            Ok(None) => {},
            Ok(Some(tool)) => {
                match load_definition(&tool, defs, &none, None) {
                    Err(e) => {
                        proof {
                            restore_all_stop(all, start, restore_only_declared, i + 1, n);
                        }
                        return Err(e);
                    },
                    Ok(next) => {
                        defs = next;
                    },
                }
                match loaded_tool_identity(&tool) {
                    Err(e) => {
                        proof {
                            restore_all_stop(all, start, restore_only_declared, i + 1, n);
                        }
                        return Err(e);
                    },
                    Ok(None) => {
                        proof {
                            restore_all_stop(all, start, restore_only_declared, i + 1, n);
                        }
                        return Err(
                            config_error(
                                "stored tool-search availability contains an unsupported definition",
                            ),
                        );
                    },
                    Ok(Some(identity)) => {
                        trusted.insert(identity);
                    },
                }
            },
        }
        i = i + 1;
    }
    Ok((defs, trusted))
}

/// What the model is told that it can search for: name, and description where
/// there is one.
pub struct CatalogEntry {
    pub name: String,
    pub description: Option<String>,
}

/// The view of a [`CatalogEntry`].
#[verifier::ext_equal]
pub struct CatalogEntryView {
    pub name: Seq<char>,
    pub description: Option<Seq<char>>,
}

impl View for CatalogEntry {
    type V = CatalogEntryView;

    open spec fn view(&self) -> CatalogEntryView {
        CatalogEntryView {
            name: self.name@,
            description: crate::data::opt_view(self.description),
        }
    }
}

/// The record of a declaration, where its kind has one and it is known.
pub open spec fn record_for(
    tool: ResponsesToolView,
    definitions: Seq<DefinitionRecordView>,
) -> Option<
    DefinitionRecordView,
> {
    match crate::definitions::identity_of(tool) {
        Ok(Some(identity)) => match crate::definitions::find_record(
            definitions,
            crate::definitions::identity_name(identity),
            0,
        ) {
            Some(at) => Some(definitions[at]),
            None => None,
        },
        _ => None,
    }
}

fn record_for_tool<'a>(
    tool: &ResponsesTool,
    definitions: &'a Vec<DefinitionRecord>,
) -> (record: Option<
    &'a DefinitionRecord,
>)
    ensures
        match record_for(tool@, crate::data::views(definitions@)) {
            Some(r) => record matches Some(x) && x@ == r,
            None => record is None,
        },
{
    match loaded_tool_identity(tool) {
        Ok(Some(identity)) => match record_position(definitions, identity.name().as_str()) {
            Some(at) => Some(&definitions[at]),
            None => None,
        },
        _ => None,
    }
}

/// The catalog entry of a declaration that is not loaded yet.
pub open spec fn catalog_entry(
    tool: ResponsesToolView,
    definitions: Seq<DefinitionRecordView>,
) -> Option<
    CatalogEntryView,
> {
    match record_for(tool, definitions) {
        Some(record) if !record.loaded => match tool {
            ResponsesToolView::Function(f) if f.defer_loading == Some(true) => Some(
                CatalogEntryView { name: f.name, description: f.description },
            ),
            ResponsesToolView::Namespace(n) if record.members matches Some(members)
                && !crate::definitions::all_loaded(members) => Some(
                CatalogEntryView { name: n.name, description: n.description },
            ),
            ResponsesToolView::Mcp(m) if m.defer_loading == Some(true) => Some(
                CatalogEntryView { name: m.server_label, description: m.server_description },
            ),
            _ => None,
        },
        _ => None,
    }
}

fn catalog_entry_for(tool: &ResponsesTool, definitions: &Vec<DefinitionRecord>) -> (entry: Option<
    CatalogEntry,
>)
    ensures
        crate::data::opt_view(entry) == catalog_entry(tool@, crate::data::views(definitions@)),
{
    let record = match record_for_tool(tool, definitions) {
        Some(record) => record,
        None => {
            return None;
        },
    };
    if record.loaded {
        return None;
    }
    match tool {
        ResponsesTool::Function(f) => {
            if f.defer_loading == Some(true) {
                return Some(
                    CatalogEntry { name: f.name.clone(), description: copy_opt(&f.description) },
                );
            }
            None
        },
        ResponsesTool::Namespace(n) => {
            if let Some(members) = &record.members {
                if !crate::definitions::all_members_loaded(members) {
                    return Some(
                        CatalogEntry {
                            name: n.name.clone(),
                            description: copy_opt(&n.description),
                        },
                    );
                }
            }
            None
        },
        ResponsesTool::Mcp(m) => {
            if m.defer_loading == Some(true) {
                return Some(
                    CatalogEntry {
                        name: m.server_label.clone(),
                        description: copy_opt(&m.server_description),
                    },
                );
            }
            None
        },
        _ => None,
    }
}

/// The catalog of what is not loaded yet, in declaration order.
pub open spec fn catalog(
    tools: Seq<ResponsesToolView>,
    definitions: Seq<DefinitionRecordView>,
) -> Seq<
    CatalogEntryView,
>
    decreases tools.len(),
{
    if tools.len() == 0 {
        Seq::empty()
    } else {
        let rest = catalog(tools.drop_last(), definitions);
        match catalog_entry(tools.last(), definitions) {
            Some(entry) => rest.push(entry),
            None => rest,
        }
    }
}

/// The catalog of what is not loaded yet, in declaration order.
pub fn build_catalog(
    tools: &Vec<ResponsesTool>,
    definitions: &Vec<DefinitionRecord>,
) -> (entries: Vec<
    CatalogEntry,
>)
    ensures
        crate::data::views(entries@) == catalog(
            crate::data::views(tools@),
            crate::data::views(definitions@),
        ),
{
    let mut entries: Vec<CatalogEntry> = Vec::new();
    let ghost all = crate::data::views(tools@);
    let ghost known = crate::data::views(definitions@);
    let mut i: usize = 0;
    proof {
        assert(crate::data::views(entries@) =~= Seq::empty());
    }
    while i < tools.len()
        invariant
            i <= tools@.len(),
            all == crate::data::views(tools@),
            known == crate::data::views(definitions@),
            crate::data::views(entries@) == catalog(all.take(i as int), known),
        decreases tools@.len() - i,
    {
        proof {
            assert(all.take(i + 1).drop_last() =~= all.take(i as int));
        }
        if let Some(entry) = catalog_entry_for(&tools[i], definitions) {
            proof {
                crate::data::views_push(entries@, entry);
            }
            entries.push(entry);
        }
        i = i + 1;
    }
    proof {
        assert(all.take(all.len() as int) =~= all);
    }
    entries
}

/// What the model is told of one catalog entry.
pub open spec fn entry_text(entry: CatalogEntryView) -> Seq<char> {
    match entry.description {
        Some(d) if !crate::text::blank(d) => entry.name + " — "@ + crate::text::trim_text(d),
        _ => entry.name,
    }
}

/// What the model is told of each catalog entry.
pub open spec fn entry_texts(entries: Seq<CatalogEntryView>) -> Seq<Seq<char>> {
    entries.map_values(|e: CatalogEntryView| entry_text(e))
}

/// What the model is told of the search: the declaration's own text, then the
/// catalog.
pub open spec fn search_description(
    declaration: ToolSearchToolParamView,
    entries: Seq<CatalogEntryView>,
) -> Seq<
    char,
> {
    if entries.len() == 0 {
        declaration.description
    } else {
        crate::text::trim_end_matches_text(crate::text::trim_text(declaration.description), '.')
            + ". Available catalog "@ + (if entries.len() == 1 {
            "entry"@
        } else {
            "entries"@
        }) + ": "@ + crate::text::join_text(entry_texts(entries), "; "@) + "."@
    }
}

/// What the model is told of the search.
pub fn synthetic_description(
    declaration: &ToolSearchToolParam,
    entries: &Vec<CatalogEntry>,
) -> (text: String)
    ensures
        text@ == search_description(declaration@, crate::data::views(entries@)),
{
    if entries.len() == 0 {
        return declaration.description.clone();
    }
    let mut texts: Vec<String> = Vec::new();
    let ghost all = crate::data::views(entries@);
    let mut i: usize = 0;
    while i < entries.len()
        invariant
            i <= entries@.len(),
            all == crate::data::views(entries@),
            texts@.len() == i,
            forall|j: int| 0 <= j < i ==> (#[trigger] texts@[j])@ == entry_text(all[j]),
        decreases entries@.len() - i,
    {
        let mut text = entries[i].name.clone();
        if let Some(description) = &entries[i].description {
            let description = trim(description.as_str());
            if !description.as_str().is_empty() {
                text.append(" — ");
                text.append(description.as_str());
            }
        }
        texts.push(text);
        i = i + 1;
    }
    proof {
        assert(crate::data::views(texts@) =~= entry_texts(all));
    }
    let base = trim(declaration.description.as_str());
    let mut text = trim_end_matches(base.as_str(), '.');
    text.append(". Available catalog ");
    text.append(
        if entries.len() == 1 {
            "entry"
        } else {
            "entries"
        },
    );
    text.append(": ");
    text.append(join(&texts, "; ").as_str());
    text.append(".");
    text
}

/// The function that stands for the search.
pub open spec fn search_function(
    declaration: ToolSearchToolParamView,
    entries: Seq<CatalogEntryView>,
) -> FunctionToolView {
    FunctionToolView {
        type_: "function"@,
        name: "tool_search"@,
        description: Some(search_description(declaration, entries)),
        parameters: Some(JsonView::Object(declaration.parameters)),
        strict: Some(true),
    }
}

/// The function that stands for the search.
pub fn synthetic_function(
    declaration: &ToolSearchToolParam,
    entries: &Vec<CatalogEntry>,
) -> (function: FunctionTool)
    ensures
        function@ == search_function(declaration@, crate::data::views(entries@)),
{
    FunctionTool {
        type_: "function".to_owned(),
        name: "tool_search".to_owned(),
        description: Some(synthetic_description(declaration, entries)),
        parameters: Some(Json::Object(declaration.parameters.copy())),
        strict: Some(true),
    }
}

/// The members of a namespace that the model is shown: the loaded ones, no
/// longer deferred, and those of an unknown kind.
pub open spec fn private_members(
    tools: Seq<CodexNamespaceMemberView>,
    records: Seq<NamespaceMemberRecordView>,
) -> Seq<CodexNamespaceMemberView>
    decreases tools.len(),
{
    if tools.len() == 0 {
        Seq::empty()
    } else {
        let rest = private_members(tools.drop_last(), records);
        match tools.last() {
            CodexNamespaceMemberView::Unknown => rest.push(CodexNamespaceMemberView::Unknown),
            CodexNamespaceMemberView::Function(f) => match crate::definitions::find_member(
                records,
                f.name,
                0,
            ) {
                Some(k) if records[k].loaded => rest.push(
                    CodexNamespaceMemberView::Function(
                        FunctionToolParamView { defer_loading: None, ..f },
                    ),
                ),
                _ => rest,
            },
        }
    }
}

/// What the model is shown of a namespace, where it has a member to show.
pub open spec fn private_namespace_of(
    namespace: CodexNamespaceToolParamView,
    records: Option<Seq<NamespaceMemberRecordView>>,
) -> Option<CodexNamespaceToolParamView> {
    match records {
        None => None,
        Some(records) => {
            let tools = private_members(namespace.tools, records);
            if tools.len() == 0 {
                None
            } else {
                Some(CodexNamespaceToolParamView { tools, ..namespace })
            }
        },
    }
}

fn private_namespace(
    namespace: &CodexNamespaceToolParam,
    records: &Option<Vec<NamespaceMemberRecord>>,
) -> (out: Option<CodexNamespaceToolParam>)
    ensures
        crate::data::opt_view(out) == private_namespace_of(
            namespace@,
            crate::data::opt_views(*records),
        ),
{
    let records = match records {
        Some(records) => records,
        None => {
            return None;
        },
    };
    let mut tools: Vec<CodexNamespaceMember> = Vec::new();
    let ghost all = crate::data::views(namespace.tools@);
    let ghost known = crate::data::views(records@);
    let mut i: usize = 0;
    proof {
        assert(crate::data::views(tools@) =~= Seq::empty());
    }
    while i < namespace.tools.len()
        invariant
            i <= namespace.tools@.len(),
            all == crate::data::views(namespace.tools@),
            known == crate::data::views(records@),
            crate::data::views(tools@) == private_members(all.take(i as int), known),
        decreases namespace.tools@.len() - i,
    {
        proof {
            assert(all.take(i + 1).drop_last() =~= all.take(i as int));
        }
        match &namespace.tools[i] {
            CodexNamespaceMember::Unknown => {
                proof {
                    crate::data::views_push(tools@, CodexNamespaceMember::Unknown);
                }
                tools.push(CodexNamespaceMember::Unknown);
            },
            CodexNamespaceMember::Function(f) => {
                if let Some(k) = member_position(records, f.name.as_str()) {
                    if records[k].loaded {
                        let mut f = f.copied();
                        f.defer_loading = None;
                        let member = CodexNamespaceMember::Function(f);
                        proof {
                            crate::data::views_push(tools@, member);
                        }
                        tools.push(member);
                    }
                }
            },
        }
        i = i + 1;
    }
    proof {
        assert(all.take(all.len() as int) =~= all);
    }
    if tools.len() == 0 {
        None
    } else {
        Some(
            CodexNamespaceToolParam {
                name: namespace.name.clone(),
                description: copy_opt(&namespace.description),
                tools,
                extra: namespace.extra.copied(),
            },
        )
    }
}

/// What the model is shown of a declaration: the function that stands for the
/// search, what is loaded, and everything that a search does not concern.
pub open spec fn private_tool(
    tool: ResponsesToolView,
    definitions: Seq<DefinitionRecordView>,
    synthetic: Option<FunctionToolView>,
) -> Option<ResponsesToolView> {
    match tool {
        ResponsesToolView::ToolSearch(_) => match synthetic {
            Some(f) => Some(
                ResponsesToolView::Function(
                    FunctionToolParamView {
                        name: f.name,
                        description: f.description,
                        parameters: f.parameters,
                        strict: f.strict,
                        defer_loading: None,
                        extra: Map::empty(),
                    },
                ),
            ),
            None => None,
        },
        ResponsesToolView::Function(f) => match record_for(tool, definitions) {
            Some(record) if record.loaded || f.defer_loading != Some(true) => Some(
                ResponsesToolView::Function(FunctionToolParamView { defer_loading: None, ..f }),
            ),
            _ => None,
        },
        ResponsesToolView::Namespace(n) => match record_for(tool, definitions) {
            Some(record) => match private_namespace_of(n, record.members) {
                Some(n) => Some(ResponsesToolView::Namespace(n)),
                None => None,
            },
            None => None,
        },
        ResponsesToolView::Mcp(m) => match record_for(tool, definitions) {
            Some(record) if record.loaded || m.defer_loading != Some(true) => Some(
                ResponsesToolView::Mcp(McpToolParamView { defer_loading: None, ..m }),
            ),
            _ => None,
        },
        t => Some(t),
    }
}

fn private_definition(
    tool: &ResponsesTool,
    definitions: &Vec<DefinitionRecord>,
    synthetic: &Option<FunctionTool>,
) -> (out: Option<ResponsesTool>)
    ensures
        crate::data::opt_view(out) == private_tool(
            tool@,
            crate::data::views(definitions@),
            crate::data::opt_view(*synthetic),
        ),
{
    match tool {
        ResponsesTool::ToolSearch(_) => match synthetic {
            Some(f) => Some(
                ResponsesTool::Function(
                    FunctionToolParam {
                        name: f.name.clone(),
                        description: copy_opt(&f.description),
                        parameters: copy_opt(&f.parameters),
                        strict: f.strict,
                        defer_loading: None,
                        extra: JsonObject::new(),
                    },
                ),
            ),
            None => None,
        },
        ResponsesTool::Function(f) => {
            if let Some(record) = record_for_tool(tool, definitions) {
                if record.loaded || f.defer_loading != Some(true) {
                    let mut f = f.copied();
                    f.defer_loading = None;
                    return Some(ResponsesTool::Function(f));
                }
            }
            None
        },
        ResponsesTool::Namespace(n) => {
            if let Some(record) = record_for_tool(tool, definitions) {
                if let Some(n) = private_namespace(n, &record.members) {
                    return Some(ResponsesTool::Namespace(n));
                }
            }
            None
        },
        ResponsesTool::Mcp(m) => {
            if let Some(record) = record_for_tool(tool, definitions) {
                if record.loaded || m.defer_loading != Some(true) {
                    let mut m = m.copied();
                    m.defer_loading = None;
                    return Some(ResponsesTool::Mcp(m));
                }
            }
            None
        },
        t => Some(t.copied()),
    }
}

/// What the model is shown of the declarations, in declaration order.
pub open spec fn private_tools(
    tools: Seq<ResponsesToolView>,
    definitions: Seq<DefinitionRecordView>,
    synthetic: Option<FunctionToolView>,
) -> Seq<ResponsesToolView>
    decreases tools.len(),
{
    if tools.len() == 0 {
        Seq::empty()
    } else {
        let rest = private_tools(tools.drop_last(), definitions, synthetic);
        match private_tool(tools.last(), definitions, synthetic) {
            Some(tool) => rest.push(tool),
            None => rest,
        }
    }
}

/// What the model is shown of the declarations, in declaration order.
pub fn build_private_tools(
    tools: &Vec<ResponsesTool>,
    definitions: &Vec<DefinitionRecord>,
    synthetic: &Option<FunctionTool>,
) -> (out: Vec<ResponsesTool>)
    ensures
        crate::data::views(out@) == private_tools(
            crate::data::views(tools@),
            crate::data::views(definitions@),
            crate::data::opt_view(*synthetic),
        ),
{
    let mut out: Vec<ResponsesTool> = Vec::new();
    let ghost all = crate::data::views(tools@);
    let ghost known = crate::data::views(definitions@);
    let ghost f = crate::data::opt_view(*synthetic);
    let mut i: usize = 0;
    proof {
        assert(crate::data::views(out@) =~= Seq::empty());
    }
    while i < tools.len()
        invariant
            i <= tools@.len(),
            all == crate::data::views(tools@),
            known == crate::data::views(definitions@),
            f == crate::data::opt_view(*synthetic),
            crate::data::views(out@) == private_tools(all.take(i as int), known, f),
        decreases tools@.len() - i,
    {
        proof {
            assert(all.take(i + 1).drop_last() =~= all.take(i as int));
        }
        if let Some(tool) = private_definition(&tools[i], definitions, synthetic) {
            proof {
                crate::data::views_push(out@, tool);
            }
            out.push(tool);
        }
        i = i + 1;
    }
    proof {
        assert(all.take(all.len() as int) =~= all);
    }
    out
}

/// The tool-search state of one request.
pub struct ToolSearchState {
    active: bool,
    public_effective_tools: Option<Vec<ResponsesTool>>,
    private_upstream_tools: Option<Vec<ResponsesTool>>,
    private_upstream_input: Option<ResponsesInput>,
    loaded_public_tools: Vec<ResponsesTool>,
    synthetic_function: Option<FunctionTool>,
    withheld_function_names: Keys<String>,
    mcp_load_positions: Table<String, usize>,
    unqualified_call_positions: Table<String, usize>,
}

/// The view of a [`ToolSearchState`].
#[verifier::ext_equal]
pub struct ToolSearchStateView {
    pub active: bool,
    pub public_effective_tools: Option<Seq<ResponsesToolView>>,
    pub private_upstream_tools: Option<Seq<ResponsesToolView>>,
    pub private_upstream_input: Option<ResponsesInputView>,
    pub loaded_public_tools: Seq<ResponsesToolView>,
    pub synthetic_function: Option<FunctionToolView>,
    pub withheld_function_names: Set<Seq<char>>,
    pub mcp_load_positions: Map<Seq<char>, usize>,
    pub unqualified_call_positions: Map<Seq<char>, usize>,
}

impl View for ToolSearchState {
    type V = ToolSearchStateView;

    closed spec fn view(&self) -> ToolSearchStateView {
        ToolSearchStateView {
            active: self.active,
            public_effective_tools: crate::data::opt_views(self.public_effective_tools),
            private_upstream_tools: crate::data::opt_views(self.private_upstream_tools),
            private_upstream_input: crate::data::opt_view(self.private_upstream_input),
            loaded_public_tools: crate::data::views(self.loaded_public_tools@),
            synthetic_function: crate::data::opt_view(self.synthetic_function),
            withheld_function_names: self.withheld_function_names@,
            mcp_load_positions: self.mcp_load_positions@,
            unqualified_call_positions: self.unqualified_call_positions@,
        }
    }
}

/// The state of a request that does not use tool search.
pub open spec fn inactive_state() -> ToolSearchStateView {
    ToolSearchStateView {
        active: false,
        public_effective_tools: None,
        private_upstream_tools: None,
        private_upstream_input: None,
        loaded_public_tools: Seq::empty(),
        synthetic_function: None,
        withheld_function_names: Set::empty(),
        mcp_load_positions: Map::empty(),
        unqualified_call_positions: Map::empty(),
    }
}

impl Default for ToolSearchState {
    fn default() -> (state: ToolSearchState)
        ensures
            state@ == inactive_state(),
    {
        let state = ToolSearchState {
            active: false,
            public_effective_tools: None,
            private_upstream_tools: None,
            private_upstream_input: None,
            loaded_public_tools: Vec::new(),
            synthetic_function: None,
            withheld_function_names: Keys::new(),
            mcp_load_positions: Table::new(),
            unqualified_call_positions: Table::new(),
        };
        proof {
            assert(state@ =~= inactive_state());
        }
        state
    }
}

/// The first `tool_search` declaration, from `i` on.
pub open spec fn search_declaration(
    tools: Seq<ResponsesToolView>,
    i: int,
) -> Option<ToolSearchToolParamView>
    decreases tools.len() - i,
{
    if i < 0 || i >= tools.len() {
        None
    } else {
        match tools[i] {
            ResponsesToolView::ToolSearch(d) => Some(d),
            _ => search_declaration(tools, i + 1),
        }
    }
}

fn find_declaration(tools: &Vec<ResponsesTool>) -> (declaration: Option<ToolSearchToolParam>)
    ensures
        crate::data::opt_view(declaration) == search_declaration(crate::data::views(tools@), 0),
{
    let mut i: usize = 0;
    while i < tools.len()
        invariant
            i <= tools@.len(),
            search_declaration(crate::data::views(tools@), 0) == search_declaration(
                crate::data::views(tools@),
                i as int,
            ),
        decreases tools@.len() - i,
    {
        if let ResponsesTool::ToolSearch(d) = &tools[i] {
            return Some(d.copied());
        }
        i = i + 1;
    }
    None
}

/// The definitions of a request before its history is read.
pub open spec fn initial_definitions(tools: Seq<ResponsesToolView>) -> Result<
    DefinitionsView,
    ToolErrorView,
> {
    match crate::definitions::initial_records(tools, tools.len() as int) {
        Err(e) => Err(e),
        Ok(definitions) => Ok(
            DefinitionsView {
                public_tools: tools,
                definitions,
                loaded_public_tools: Seq::empty(),
                withheld_function_names: crate::definitions::initially_withheld(tools),
                mcp_load_positions: Map::empty(),
                prior_unknown_namespace_calls: Set::empty(),
                unqualified_call_positions: Map::empty(),
            },
        ),
    }
}

fn start_definitions(tools: &Vec<ResponsesTool>) -> (out: Result<Definitions, ToolError>)
    ensures
        crate::error::outcome(out) == initial_definitions(crate::data::views(tools@)),
{
    let definitions = match index_initial_definitions(tools) {
        Ok(definitions) => definitions,
        Err(e) => {
            return Err(e);
        },
    };
    let defs = Definitions {
        public_tools: copy_vec(tools),
        definitions,
        loaded_public_tools: Vec::new(),
        withheld_function_names: initial_withheld_function_names(tools),
        mcp_load_positions: Table::new(),
        prior_unknown_namespace_calls: Keys::new(),
        unqualified_call_positions: Table::new(),
    };
    proof {
        assert(defs@.loaded_public_tools =~= Seq::empty());
    }
    Ok(defs)
}

/// The state after the history: what is public, and what the model is shown.
pub open spec fn finished_state(
    tools_were_present: bool,
    declaration: Option<ToolSearchToolParamView>,
    defs: DefinitionsView,
    input: ResponsesInputView,
) -> Result<ToolSearchStateView, ToolErrorView> {
    match crate::names::take_names(crate::names::declared_names(defs.public_tools)) {
        Err(e) => Err(e),
        Ok(()) => {
            let entries = catalog(defs.public_tools, defs.definitions);
            let synthetic = match declaration {
                Some(d) => Some(search_function(d, entries)),
                None => None,
            };
            let private = private_tools(defs.public_tools, defs.definitions, synthetic);
            Ok(
                ToolSearchStateView {
                    active: true,
                    public_effective_tools: if tools_were_present || defs.public_tools.len() > 0 {
                        Some(defs.public_tools)
                    } else {
                        None
                    },
                    private_upstream_tools: if tools_were_present || private.len() > 0 {
                        Some(private)
                    } else {
                        None
                    },
                    private_upstream_input: Some(input),
                    loaded_public_tools: defs.loaded_public_tools,
                    synthetic_function: synthetic,
                    withheld_function_names: defs.withheld_function_names,
                    mcp_load_positions: defs.mcp_load_positions,
                    unqualified_call_positions: defs.unqualified_call_positions,
                },
            )
        },
    }
}

/// The state of a request, with the definitions that earlier responses loaded.
pub open spec fn state_of(
    request: RequestPayloadView,
    restored: Seq<ResponsesToolView>,
    restore_only_declared: bool,
) -> Result<ToolSearchStateView, ToolErrorView> {
    let tools = crate::readiness::declared_tools(request.tools);
    let input = crate::convert::shown_input(request.input);
    match crate::readiness::readiness(tools, input, request.parallel_tool_calls) {
        Err(e) => Err(e),
        Ok(ToolSearchReadiness::Inactive) => Ok(inactive_state()),
        Ok(ToolSearchReadiness::StatePreparationRequired) => {
            let declaration = search_declaration(tools, 0);
            if declaration is None && !crate::readiness::input_has_search(input) {
                Err(
                    ToolErrorView::Config(
                        "defer_loading requires a tool_search declaration or replayed tool-search history"@,
                    ),
                )
            } else {
                match initial_definitions(tools) {
                    Err(e) => Err(e),
                    Ok(defs) => match restore_all(
                        restored,
                        defs,
                        restore_only_declared,
                        restored.len() as int,
                    ) {
                        Err(e) => Err(e),
                        Ok((defs, trusted)) => match prepared_history(input, defs, trusted) {
                            Err(e) => Err(e),
                            Ok((defs, input)) => finished_state(
                                request.tools is Some,
                                declaration,
                                defs,
                                input,
                            ),
                        },
                    },
                }
            }
        },
    }
}

/// Whether a choice names a function whose schema is withheld.
pub open spec fn targets_withheld(
    choice: Option<ToolChoiceView>,
    withheld: Set<Seq<char>>,
) -> bool {
    match choice {
        Some(ToolChoiceView::Function { namespace, name }) => withheld.contains(
            match namespace {
                Some(namespace) => crate::names::member_name(namespace, name),
                None => name,
            },
        ),
        Some(ToolChoiceView::AllowedTools { mode, tools }) => any_withheld(tools, withheld),
        _ => false,
    }
}

/// Whether any allowed tool is a function whose schema is withheld.
pub open spec fn any_withheld(tools: Seq<AllowedToolView>, withheld: Set<Seq<char>>) -> bool {
    exists|i: int| 0 <= i < tools.len() && allows_withheld(#[trigger] tools[i], withheld)
}

/// Whether an allowed tool is a function whose schema is withheld.
pub open spec fn allows_withheld(tool: AllowedToolView, withheld: Set<Seq<char>>) -> bool {
    tool.type_ == "function"@ && withheld.contains(tool.name)
}

/// Refuses a choice that names a function whose schema is withheld.
pub fn validate_effective_tool_choice(
    choice: &Option<ToolChoice>,
    withheld: &Keys<String>,
) -> (out: Result<
    (),
    ToolError,
>)
    ensures
        out is Err == targets_withheld(crate::data::opt_view(*choice), withheld@),
        out matches Err(e) ==> e@ == ToolErrorView::Config(
            "tool_choice targets a function before its definition is loaded"@,
        ),
{
    let targets = match choice {
        Some(ToolChoice::Function { namespace, name }) => {
            let model_name = match namespace {
                Some(namespace) => model_visible_namespace_member_name(
                    namespace.as_str(),
                    name.as_str(),
                ),
                None => name.clone(),
            };
            withheld.contains(&model_name)
        },
        Some(ToolChoice::AllowedTools { mode, tools }) => {
            let ghost all = crate::data::views(tools@);
            let mut found = false;
            let mut i: usize = 0;
            while i < tools.len() && !found
                invariant
                    i <= tools@.len(),
                    all == crate::data::views(tools@),
                    found ==> exists|j: int|
                        0 <= j < all.len() && allows_withheld(#[trigger] all[j], withheld@),
                    !found ==> forall|j: int|
                        0 <= j < i ==> !allows_withheld(#[trigger] all[j], withheld@),
                decreases tools@.len() - i,
            {
                if same_text(
                    tools[i].type_.as_str(),
                    "function",
                ) && withheld.contains(&tools[i].name) {
                    proof {
                        assert(allows_withheld(all[i as int], withheld@));
                    }
                    found = true;
                }
                i = i + 1;
            }
            proof {
                assert(crate::data::opt_view(*choice) == Some(
                    ToolChoiceView::AllowedTools { mode: *mode, tools: all },
                ));
                assert(found == any_withheld(all, withheld@));
            }
            found
        },
        _ => false,
    };
    if targets {
        return Err(config_error("tool_choice targets a function before its definition is loaded"));
    }
    Ok(())
}

impl ToolSearchState {
    /// The state of a request, from its declarations and its ordered history.
    pub fn build(request: &RequestPayload) -> (out: Result<ToolSearchState, ToolError>)
        ensures
            crate::error::outcome(out) == state_of(request@, Seq::empty(), false),
    {
        let none: Vec<ResponsesTool> = Vec::new();
        proof {
            assert(crate::data::views(none@) =~= Seq::empty());
        }
        Self::build_with_loaded_tools(request, &none, false)
    }

    /// The state of a request, with the definitions that earlier responses loaded
    /// and whose search pair compaction may have taken out of the history. They
    /// pass through the same checks as definitions in a `tool_search_output`.
    pub fn build_with_loaded_tools(
        request: &RequestPayload,
        restored: &Vec<ResponsesTool>,
        restore_only_declared: bool,
    ) -> (out: Result<ToolSearchState, ToolError>)
        ensures
            crate::error::outcome(out) == state_of(
                request@,
                crate::data::views(restored@),
                restore_only_declared,
            ),
    {
        let active_input = request.input.model_input();
        match request.tool_search_readiness_for_input(&active_input) {
            Err(e) => {
                return Err(e);
            },
            Ok(ToolSearchReadiness::Inactive) => {
                return Ok(ToolSearchState::default());
            },
            Ok(ToolSearchReadiness::StatePreparationRequired) => {},
        }
        let none: Vec<ResponsesTool> = Vec::new();
        proof {
            assert(crate::data::views(none@) =~= Seq::empty());
        }
        let tools = match &request.tools {
            Some(tools) => tools,
            None => &none,
        };
        let tools_were_present = request.tools.is_some();
        let declaration = find_declaration(tools);
        if declaration.is_none() && !active_input.contains_tool_search_state() {
            return Err(
                config_error(
                    "defer_loading requires a tool_search declaration or replayed tool-search history",
                ),
            );
        }
        let defs = match start_definitions(tools) {
            Ok(defs) => defs,
            Err(e) => {
                return Err(e);
            },
        };
        let (defs, trusted) = match restore_loaded_definitions(
            restored,
            defs,
            restore_only_declared,
        ) {
            Ok(done) => done,
            Err(e) => {
                return Err(e);
            },
        };
        let (defs, input) = match prepare_history(&active_input, defs, &trusted) {
            Ok(done) => done,
            Err(e) => {
                return Err(e);
            },
        };
        Self::finish(tools_were_present, declaration, defs, input)
    }

    fn finish(
        tools_were_present: bool,
        declaration: Option<ToolSearchToolParam>,
        defs: Definitions,
        input: ResponsesInput,
    ) -> (out: Result<ToolSearchState, ToolError>)
        ensures
            crate::error::outcome(out) == finished_state(
                tools_were_present,
                crate::data::opt_view(declaration),
                defs@,
                input@,
            ),
    {
        match validate_model_visible_declared_names(&defs.public_tools) {
            Err(e) => {
                return Err(e);
            },
            Ok(()) => {},
        }
        let entries = build_catalog(&defs.public_tools, &defs.definitions);
        let synthetic = match &declaration {
            Some(d) => Some(synthetic_function(d, &entries)),
            None => None,
        };
        let private = build_private_tools(&defs.public_tools, &defs.definitions, &synthetic);
        let show_public = tools_were_present || defs.public_tools.len() > 0;
        let show_private = tools_were_present || private.len() > 0;
        let Definitions {
            public_tools,
            definitions: _,
            loaded_public_tools,
            withheld_function_names,
            mcp_load_positions,
            prior_unknown_namespace_calls: _,
            unqualified_call_positions,
        } = defs;
        Ok(
            ToolSearchState {
                active: true,
                public_effective_tools: if show_public {
                    Some(public_tools)
                } else {
                    None
                },
                private_upstream_tools: if show_private {
                    Some(private)
                } else {
                    None
                },
                private_upstream_input: Some(input),
                loaded_public_tools,
                synthetic_function: synthetic,
                withheld_function_names,
                mcp_load_positions,
                unqualified_call_positions,
            },
        )
    }

    /// Whether the request uses tool search.
    pub fn is_active(&self) -> (yes: bool)
        ensures
            yes == self@.active,
    {
        self.active
    }

    /// The declarations as the client sees them.
    pub fn public_effective_tools(&self) -> (tools: Option<&Vec<ResponsesTool>>)
        ensures
            match tools {
                Some(t) => self@.public_effective_tools == Some(crate::data::views(t@)),
                None => self@.public_effective_tools is None,
            },
    {
        match &self.public_effective_tools {
            Some(tools) => Some(tools),
            None => None,
        }
    }

    /// The definitions that completed searches loaded, in first-load order. One
    /// that was declared as deferred stays deferred publicly.
    pub fn loaded_public_tools(&self) -> (tools: &Vec<ResponsesTool>)
        ensures
            crate::data::views(tools@) == self@.loaded_public_tools,
    {
        &self.loaded_public_tools
    }

    /// The function that stands for the search.
    pub fn synthetic_function(&self) -> (function: Option<&FunctionTool>)
        ensures
            match function {
                Some(f) => self@.synthetic_function == Some(f@),
                None => self@.synthetic_function is None,
            },
    {
        match &self.synthetic_function {
            Some(f) => Some(f),
            None => None,
        }
    }

    /// The names of the functions whose schemas are withheld.
    pub fn withheld_function_names(&self) -> (names: &Keys<String>)
        ensures
            names@ == self@.withheld_function_names,
    {
        &self.withheld_function_names
    }

    /// Where in the history each MCP server was loaded.
    pub fn mcp_load_positions(&self) -> (positions: &Table<String, usize>)
        ensures
            positions@ == self@.mcp_load_positions,
    {
        &self.mcp_load_positions
    }

    /// Where in the history each unqualified name was first called.
    pub fn unqualified_call_positions(&self) -> (positions: &Table<String, usize>)
        ensures
            positions@ == self@.unqualified_call_positions,
    {
        &self.unqualified_call_positions
    }

    /// The request as the model is shown it. The public request stays as it is.
    pub fn private_inference_request(&self, public: &RequestPayload) -> (out: Result<
        RequestPayload,
        ToolError,
    >)
        ensures
            match out {
                Ok(private) => !targets_withheld(
                    public@.tool_choice,
                    self@.withheld_function_names,
                ) && private@ == (RequestPayloadView {
                    input: match self@.private_upstream_input {
                        Some(input) => input,
                        None => public@.input,
                    },
                    tools: self@.private_upstream_tools,
                    ..public@
                }),
                Err(e) => targets_withheld(public@.tool_choice, self@.withheld_function_names) && e@
                    == ToolErrorView::Config(
                    "tool_choice targets a function before its definition is loaded"@,
                ),
            },
    {
        match validate_effective_tool_choice(&public.tool_choice, &self.withheld_function_names) {
            Err(e) => {
                return Err(e);
            },
            Ok(()) => {},
        }
        let mut private = public.copied();
        if let Some(input) = &self.private_upstream_input {
            private.input = input.copied();
        }
        private.tools = copy_opt_vec(&self.private_upstream_tools);
        Ok(private)
    }
}

/// How many of an optional list there are.
pub open spec fn count_of<T>(list: Option<Seq<T>>) -> nat {
    match list {
        Some(items) => items.len(),
        None => 0,
    }
}

/// What is told of a state where it is logged: counts only, since definitions can hold
/// credentials.
pub open spec fn state_summary(state: ToolSearchStateView) -> Seq<char> {
    "ToolSearchState { activity: "@ + (if state.active {
        "Active"@
    } else {
        "Inactive"@
    }) + ", active: "@ + crate::text::yes_text(state.active) + crate::text::count_text(
        "public_effective_tool_count"@,
        count_of(state.public_effective_tools),
    ) + crate::text::count_text(
        "private_upstream_tool_count"@,
        count_of(state.private_upstream_tools),
    ) + crate::text::count_text("loaded_public_tool_count"@, state.loaded_public_tools.len())
        + ", has_private_upstream_input: "@ + crate::text::yes_text(
        state.private_upstream_input is Some,
    ) + ", has_synthetic_function: "@ + crate::text::yes_text(state.synthetic_function is Some)
        + crate::text::count_text(
        "withheld_function_count"@,
        state.withheld_function_names.len(),
    ) + crate::text::count_text("mcp_load_count"@, state.mcp_load_positions.dom().len())
        + crate::text::count_text(
        "unqualified_history_call_count"@,
        state.unqualified_call_positions.dom().len(),
    ) + " }"@
}

fn count_tools(tools: &Option<Vec<ResponsesTool>>) -> (n: usize)
    ensures
        n == count_of(crate::data::opt_views(*tools)),
{
    match tools {
        Some(tools) => {
            proof {
                assert(crate::data::views(tools@).len() == tools@.len());
            }
            tools.len()
        },
        None => 0,
    }
}

impl ToolSearchState {
    /// What is told of this state where it is logged.
    pub fn summary(&self) -> (text: String)
        ensures
            text@ == state_summary(self@),
    {
        proof {
            assert(self@.loaded_public_tools.len() == self.loaded_public_tools@.len());
        }
        let activity = if self.active {
            "Active"
        } else {
            "Inactive"
        };
        let mut text = concat3("ToolSearchState { activity: ", activity, ", active: ");
        text = concat(text.as_str(), yes_str(self.active));
        text = concat(
            text.as_str(),
            count_part(
                "public_effective_tool_count",
                count_tools(&self.public_effective_tools),
            ).as_str(),
        );
        text = concat(
            text.as_str(),
            count_part(
                "private_upstream_tool_count",
                count_tools(&self.private_upstream_tools),
            ).as_str(),
        );
        text = concat(
            text.as_str(),
            count_part("loaded_public_tool_count", self.loaded_public_tools.len()).as_str(),
        );
        text = concat3(
            text.as_str(),
            ", has_private_upstream_input: ",
            yes_str(self.private_upstream_input.is_some()),
        );
        text = concat3(
            text.as_str(),
            ", has_synthetic_function: ",
            yes_str(self.synthetic_function.is_some()),
        );
        text = concat(
            text.as_str(),
            count_part("withheld_function_count", self.withheld_function_names.len()).as_str(),
        );
        text = concat(
            text.as_str(),
            count_part("mcp_load_count", self.mcp_load_positions.len()).as_str(),
        );
        text = concat(
            text.as_str(),
            count_part(
                "unqualified_history_call_count",
                self.unqualified_call_positions.len(),
            ).as_str(),
        );
        concat(text.as_str(), " }")
    }
}

} // verus!
