//! Searches that the client runs: which functions they loaded, and how a call that stands
//! for a search is given back as one.
use vstd::prelude::*;

use crate::data::{copy_opt, copy_vec, same_opt, same_vec, Data};
use crate::events::WireEvent;
#[allow(unused_imports)]
use crate::events::WireEventView;
use crate::items::{FunctionToolCall, MessageStatus};
#[allow(unused_imports)]
use crate::items::FunctionToolCallView;
#[allow(unused_imports)]
use crate::json::{Json, JsonObject, JsonView};
use crate::tables::{Keys, Table};
use crate::text::same_text;
use crate::tools::{FunctionTool, ToolSearchExecution, ToolSearchStatus};
#[allow(unused_imports)]
use crate::tools::FunctionToolView;
use crate::wire::{copy_without, read_list, read_opt_text, set_text, write_list, FromJson, ToJson};
use crate::wire_items::read_opt_tool_search_status;
use crate::wire_tools::read_execution;

verus! {

/// A tool search in a history, as far as the client says anything of it.
#[derive(Debug, Clone, PartialEq)]
pub struct ClientSearchCall {
    pub execution: Option<ToolSearchExecution>,
    pub call_id: Option<String>,
    pub status: Option<ToolSearchStatus>,
    pub arguments: Json,
    pub extra: JsonObject,
}

/// The view of a [`ClientSearchCall`].
#[verifier::ext_equal]
pub struct ClientSearchCallView {
    pub execution: Option<ToolSearchExecution>,
    pub call_id: Option<Seq<char>>,
    pub status: Option<ToolSearchStatus>,
    pub arguments: JsonView,
    pub extra: Map<Seq<char>, JsonView>,
}

impl View for ClientSearchCall {
    type V = ClientSearchCallView;

    open spec fn view(&self) -> ClientSearchCallView {
        ClientSearchCallView {
            execution: self.execution,
            call_id: crate::data::opt_view(self.call_id),
            status: self.status,
            arguments: self.arguments@,
            extra: self.extra@,
        }
    }
}

impl Data for ClientSearchCall {
    fn copied(&self) -> (out: ClientSearchCall) {
        ClientSearchCall {
            execution: self.execution,
            call_id: copy_opt(&self.call_id),
            status: self.status,
            arguments: self.arguments.copied(),
            extra: self.extra.copied(),
        }
    }

    fn same(&self, other: &ClientSearchCall) -> (yes: bool) {
        self.execution == other.execution
            && same_opt(&self.call_id, &other.call_id)
            && self.status == other.status
            && self.arguments.same(&other.arguments)
            && self.extra.same(&other.extra)
    }
}

/// What a tool search found, as far as the client says anything of it.
#[derive(Debug, Clone, PartialEq)]
pub struct ClientSearchOutput {
    pub execution: Option<ToolSearchExecution>,
    pub call_id: Option<String>,
    pub status: Option<ToolSearchStatus>,
    pub tools: Vec<Json>,
    pub extra: JsonObject,
}

/// The view of a [`ClientSearchOutput`].
#[verifier::ext_equal]
pub struct ClientSearchOutputView {
    pub execution: Option<ToolSearchExecution>,
    pub call_id: Option<Seq<char>>,
    pub status: Option<ToolSearchStatus>,
    pub tools: Seq<JsonView>,
    pub extra: Map<Seq<char>, JsonView>,
}

impl View for ClientSearchOutput {
    type V = ClientSearchOutputView;

    open spec fn view(&self) -> ClientSearchOutputView {
        ClientSearchOutputView {
            execution: self.execution,
            call_id: crate::data::opt_view(self.call_id),
            status: self.status,
            tools: crate::data::views(self.tools@),
            extra: self.extra@,
        }
    }
}

impl Data for ClientSearchOutput {
    fn copied(&self) -> (out: ClientSearchOutput) {
        ClientSearchOutput {
            execution: self.execution,
            call_id: copy_opt(&self.call_id),
            status: self.status,
            tools: copy_vec(&self.tools),
            extra: self.extra.copied(),
        }
    }

    fn same(&self, other: &ClientSearchOutput) -> (yes: bool) {
        self.execution == other.execution
            && same_opt(&self.call_id, &other.call_id)
            && self.status == other.status
            && same_vec(&self.tools, &other.tools)
            && self.extra.same(&other.extra)
    }
}

/// An item of a history in which searches are looked for.
#[derive(Debug, Clone, PartialEq)]
pub enum SearchHistoryItem {
    Call(ClientSearchCall),
    Output(ClientSearchOutput),
    Other(Json),
}

/// The view of a [`SearchHistoryItem`].
#[verifier::ext_equal]
pub enum SearchHistoryItemView {
    Call(ClientSearchCallView),
    Output(ClientSearchOutputView),
    Other(JsonView),
}

impl View for SearchHistoryItem {
    type V = SearchHistoryItemView;

    open spec fn view(&self) -> SearchHistoryItemView {
        match *self {
            SearchHistoryItem::Call(x) => SearchHistoryItemView::Call(x@),
            SearchHistoryItem::Output(x) => SearchHistoryItemView::Output(x@),
            SearchHistoryItem::Other(x) => SearchHistoryItemView::Other(x@),
        }
    }
}

impl Data for SearchHistoryItem {
    fn copied(&self) -> (out: SearchHistoryItem) {
        match self {
            SearchHistoryItem::Call(x) => SearchHistoryItem::Call(x.copied()),
            SearchHistoryItem::Output(x) => SearchHistoryItem::Output(x.copied()),
            SearchHistoryItem::Other(x) => SearchHistoryItem::Other(x.copied()),
        }
    }

    fn same(&self, other: &SearchHistoryItem) -> (yes: bool) {
        match (self, other) {
            (SearchHistoryItem::Call(a), SearchHistoryItem::Call(b)) => a.same(b),
            (SearchHistoryItem::Output(a), SearchHistoryItem::Output(b)) => a.same(b),
            (SearchHistoryItem::Other(a), SearchHistoryItem::Other(b)) => a.same(b),
            _ => false,
        }
    }
}

/// A history in which searches are looked for.
#[derive(Debug, Clone, PartialEq)]
pub enum SearchHistory {
    Text(String),
    Items(Vec<SearchHistoryItem>),
}

/// The view of a [`SearchHistory`].
#[verifier::ext_equal]
pub enum SearchHistoryView {
    Text(Seq<char>),
    Items(Seq<SearchHistoryItemView>),
}

impl View for SearchHistory {
    type V = SearchHistoryView;

    open spec fn view(&self) -> SearchHistoryView {
        match *self {
            SearchHistory::Text(x) => SearchHistoryView::Text(x@),
            SearchHistory::Items(x) => SearchHistoryView::Items(crate::data::views(x@)),
        }
    }
}

impl Data for SearchHistory {
    fn copied(&self) -> (out: SearchHistory) {
        match self {
            SearchHistory::Text(x) => SearchHistory::Text(x.copied()),
            SearchHistory::Items(x) => SearchHistory::Items(copy_vec(x)),
        }
    }

    fn same(&self, other: &SearchHistory) -> (yes: bool) {
        match (self, other) {
            (SearchHistory::Text(a), SearchHistory::Text(b)) => a.same(b),
            (SearchHistory::Items(a), SearchHistory::Items(b)) => same_vec(a, b),
            _ => false,
        }
    }
}

/// An output item that may stand for a search.
#[derive(Debug, Clone, PartialEq)]
pub enum RestorableItem {
    FunctionCall(FunctionToolCall),
    SearchCall(ClientSearchCall),
    Other(Json),
}

/// The view of a [`RestorableItem`].
#[verifier::ext_equal]
pub enum RestorableItemView {
    FunctionCall(FunctionToolCallView),
    SearchCall(ClientSearchCallView),
    Other(JsonView),
}

impl View for RestorableItem {
    type V = RestorableItemView;

    open spec fn view(&self) -> RestorableItemView {
        match *self {
            RestorableItem::FunctionCall(x) => RestorableItemView::FunctionCall(x@),
            RestorableItem::SearchCall(x) => RestorableItemView::SearchCall(x@),
            RestorableItem::Other(x) => RestorableItemView::Other(x@),
        }
    }
}

impl Data for RestorableItem {
    fn copied(&self) -> (out: RestorableItem) {
        match self {
            RestorableItem::FunctionCall(x) => RestorableItem::FunctionCall(x.copied()),
            RestorableItem::SearchCall(x) => RestorableItem::SearchCall(x.copied()),
            RestorableItem::Other(x) => RestorableItem::Other(x.copied()),
        }
    }

    fn same(&self, other: &RestorableItem) -> (yes: bool) {
        match (self, other) {
            (RestorableItem::FunctionCall(a), RestorableItem::FunctionCall(b)) => a.same(b),
            (RestorableItem::SearchCall(a), RestorableItem::SearchCall(b)) => a.same(b),
            (RestorableItem::Other(a), RestorableItem::Other(b)) => a.same(b),
            _ => false,
        }
    }
}

/// The namespace that a member is of, unless several have a member of that name.
#[derive(Debug, Clone, PartialEq)]
pub struct NamespaceClaim {
    pub namespace: Option<String>,
}

/// The view of a [`NamespaceClaim`].
#[verifier::ext_equal]
pub struct NamespaceClaimView {
    pub namespace: Option<Seq<char>>,
}

impl View for NamespaceClaim {
    type V = NamespaceClaimView;

    open spec fn view(&self) -> NamespaceClaimView {
        NamespaceClaimView {
            namespace: crate::data::opt_view(self.namespace),
        }
    }
}

impl Data for NamespaceClaim {
    fn copied(&self) -> (out: NamespaceClaim) {
        NamespaceClaim {
            namespace: copy_opt(&self.namespace),
        }
    }

    fn same(&self, other: &NamespaceClaim) -> (yes: bool) {
        same_opt(&self.namespace, &other.namespace)
    }
}

/// The name of the function that stands for a search.
pub const TOOL_SEARCH_NAME: &'static str = "tool_search";

/// The fields of a call or an output that are not extra ones.
pub open spec fn call_keys() -> Seq<Seq<char>> {
    seq!["type"@, "execution"@, "call_id"@, "status"@, "arguments"@]
}

/// The fields of an output that are not extra ones.
pub open spec fn output_keys() -> Seq<Seq<char>> {
    seq!["type"@, "execution"@, "call_id"@, "status"@, "tools"@]
}

/// What is said of a search: who runs it, its id and how far it is.
pub open spec fn said_of_search(fields: Map<Seq<char>, JsonView>) -> Option<
    (Option<ToolSearchExecution>, Option<Seq<char>>, Option<ToolSearchStatus>),
> {
    match (
        crate::wire::opt_text(fields, "execution"@),
        crate::wire::opt_text(fields, "call_id"@),
        crate::wire_items::opt_tool_search_status(fields, "status"@),
    ) {
        (Some(execution), Some(call_id), Some(status)) => match crate::wire_tools::execution_of(
            execution,
        ) {
            Some(execution) => Some((execution, call_id, status)),
            None => None,
        },
        _ => None,
    }
}

fn read_said(fields: &JsonObject) -> (out: Option<
    (Option<ToolSearchExecution>, Option<String>, Option<ToolSearchStatus>),
>)
    ensures
        match said_of_search(fields@) {
            Some((execution, call_id, status)) => out matches Some(x) && x.0 == execution
                && crate::data::opt_view(x.1) == call_id && x.2 == status,
            None => out is None,
        },
{
    match (
        read_opt_text(fields, "execution"),
        read_opt_text(fields, "call_id"),
        read_opt_tool_search_status(fields, "status"),
    ) {
        (Some(execution), Some(call_id), Some(status)) => match read_execution(&execution) {
            Some(execution) => Some((execution, call_id, status)),
            None => None,
        },
        _ => None,
    }
}

/// An item of a history. Of an item of another kind nothing is read.
pub open spec fn history_item_of(value: JsonView) -> Option<SearchHistoryItemView> {
    match value {
        JsonView::Object(fields) => if crate::json::text_field(fields, "type"@) == Some(
            "tool_search_call"@,
        ) {
            match (said_of_search(fields), crate::json::object_field(fields, "arguments"@)) {
                (Some((execution, call_id, status)), Some(arguments)) => Some(
                    SearchHistoryItemView::Call(
                        ClientSearchCallView {
                            execution,
                            call_id,
                            status,
                            arguments,
                            extra: crate::wire::without(fields, call_keys()),
                        },
                    ),
                ),
                _ => None,
            }
        } else if crate::json::text_field(fields, "type"@) == Some("tool_search_output"@) {
            match (said_of_search(fields), crate::json::object_field(fields, "tools"@)) {
                (Some((execution, call_id, status)), Some(JsonView::Array(tools))) => Some(
                    SearchHistoryItemView::Output(
                        ClientSearchOutputView {
                            execution,
                            call_id,
                            status,
                            tools,
                            extra: crate::wire::without(fields, output_keys()),
                        },
                    ),
                ),
                _ => None,
            }
        } else {
            Some(SearchHistoryItemView::Other(value))
        },
        other => Some(SearchHistoryItemView::Other(other)),
    }
}

impl FromJson for SearchHistoryItem {
    open spec fn of_json(value: JsonView) -> Option<SearchHistoryItemView> {
        history_item_of(value)
    }

    fn from_json(value: &Json) -> (out: Option<SearchHistoryItem>) {
        let fields = match value {
            Json::Object(fields) => fields,
            _ => {
                return Some(SearchHistoryItem::Other(value.copy()));
            },
        };
        if fields.field_is("type", "tool_search_call") {
            let keys: Vec<&'static str> = vec!["type", "execution", "call_id", "status", "arguments"];
            proof {
                assert(keys@.map_values(|k: &'static str| k@) =~= call_keys());
            }
            match (read_said(fields), fields.get("arguments")) {
                (Some((execution, call_id, status)), Some(arguments)) => Some(
                    SearchHistoryItem::Call(
                        ClientSearchCall {
                            execution,
                            call_id,
                            status,
                            arguments: arguments.copy(),
                            extra: copy_without(fields, &keys),
                        },
                    ),
                ),
                _ => None,
            }
        } else if fields.field_is("type", "tool_search_output") {
            let keys: Vec<&'static str> = vec!["type", "execution", "call_id", "status", "tools"];
            proof {
                assert(keys@.map_values(|k: &'static str| k@) =~= output_keys());
            }
            match (read_said(fields), fields.get("tools")) {
                (Some((execution, call_id, status)), Some(Json::Array(tools))) => {
                    proof {
                        assert(crate::json::array_view(tools@) =~= crate::data::views(tools@));
                    }
                    let tools = copy_vec(tools);
                    Some(
                        SearchHistoryItem::Output(
                            ClientSearchOutput {
                                execution,
                                call_id,
                                status,
                                tools,
                                extra: copy_without(fields, &keys),
                            },
                        ),
                    )
                },
                _ => None,
            }
        } else {
            Some(SearchHistoryItem::Other(value.copy()))
        }
    }
}

/// The fields of a search with what is said of it; what is not said is left out.
pub open spec fn said_fields(
    extra: Map<Seq<char>, JsonView>,
    type_: Seq<char>,
    execution: Option<ToolSearchExecution>,
    call_id: Option<Seq<char>>,
    status: Option<ToolSearchStatus>,
) -> Map<Seq<char>, JsonView> {
    let typed = extra.insert("type"@, JsonView::Text(type_));
    let run = crate::wire::with_text(
        typed,
        "execution"@,
        crate::wire_items::execution_name(execution),
    );
    let called = crate::wire::with_text(run, "call_id"@, call_id);
    crate::wire::with_text(called, "status"@, crate::wire_items::status_name(status))
}

fn said_to_fields(
    extra: &JsonObject,
    type_: &str,
    execution: Option<ToolSearchExecution>,
    call_id: &Option<String>,
    status: Option<ToolSearchStatus>,
) -> (fields: JsonObject)
    ensures
        fields@ == said_fields(
            extra@,
            type_@,
            execution,
            crate::data::opt_view(*call_id),
            status,
        ),
{
    let mut fields = extra.copy();
    fields.set_str("type", type_);
    if let Some(e) = execution {
        fields.set_str("execution", e.as_str());
    }
    set_text(&mut fields, "call_id", call_id);
    if let Some(s) = status {
        fields.set_str("status", s.as_str());
    }
    fields
}

/// A history item as the client writes it.
pub open spec fn history_item_json(item: SearchHistoryItemView) -> JsonView {
    match item {
        SearchHistoryItemView::Call(call) => JsonView::Object(
            said_fields(
                call.extra,
                "tool_search_call"@,
                call.execution,
                call.call_id,
                call.status,
            ).insert("arguments"@, call.arguments),
        ),
        SearchHistoryItemView::Output(output) => JsonView::Object(
            said_fields(
                output.extra,
                "tool_search_output"@,
                output.execution,
                output.call_id,
                output.status,
            ).insert("tools"@, JsonView::Array(output.tools)),
        ),
        SearchHistoryItemView::Other(value) => value,
    }
}

impl ToJson for SearchHistoryItem {
    open spec fn json_of(item: SearchHistoryItemView) -> JsonView {
        history_item_json(item)
    }

    fn to_json(&self) -> (out: Json) {
        match self {
            SearchHistoryItem::Call(call) => {
                let mut fields = said_to_fields(
                    &call.extra,
                    "tool_search_call",
                    call.execution,
                    &call.call_id,
                    call.status,
                );
                fields.set("arguments", call.arguments.copy());
                Json::Object(fields)
            },
            SearchHistoryItem::Output(output) => {
                let mut fields = said_to_fields(
                    &output.extra,
                    "tool_search_output",
                    output.execution,
                    &output.call_id,
                    output.status,
                );
                let tools = copy_vec(&output.tools);
                proof {
                    assert(crate::json::array_view(tools@) =~= crate::data::views(tools@));
                }
                fields.set("tools", Json::Array(tools));
                Json::Object(fields)
            },
            SearchHistoryItem::Other(value) => value.copy(),
        }
    }
}

impl FromJson for SearchHistory {
    /// A text, or a list in which every item can be read.
    open spec fn of_json(value: JsonView) -> Option<SearchHistoryView> {
        match value {
            JsonView::Text(text) => Some(SearchHistoryView::Text(text)),
            JsonView::Array(items) => match crate::wire::list_of::<SearchHistoryItem>(
                items,
                items.len() as int,
            ) {
                Some(items) => Some(SearchHistoryView::Items(items)),
                None => None,
            },
            _ => None,
        }
    }

    fn from_json(value: &Json) -> (out: Option<SearchHistory>) {
        match value {
            Json::Text(text) => Some(SearchHistory::Text(text.clone())),
            Json::Array(items) => match read_list::<SearchHistoryItem>(items) {
                Some(items) => Some(SearchHistory::Items(items)),
                None => None,
            },
            _ => None,
        }
    }
}

impl ToJson for SearchHistory {
    open spec fn json_of(history: SearchHistoryView) -> JsonView {
        match history {
            SearchHistoryView::Text(text) => JsonView::Text(text),
            SearchHistoryView::Items(items) => JsonView::Array(
                crate::wire::list_json::<SearchHistoryItem>(items),
            ),
        }
    }

    fn to_json(&self) -> (out: Json) {
        match self {
            SearchHistory::Text(text) => Json::text(text.as_str()),
            SearchHistory::Items(items) => write_list::<SearchHistoryItem>(items),
        }
    }
}

/// What is known of a history's searches: the finished calls, the ids that have an output,
/// and the outputs that count.
#[verifier::ext_equal]
pub struct ClientSearches {
    pub calls: Set<Seq<char>>,
    pub answered: Set<Seq<char>>,
    pub outputs: Seq<ClientSearchOutputView>,
}

/// The id of a search that the client has run.
pub open spec fn finished_id(
    execution: Option<ToolSearchExecution>,
    call_id: Option<Seq<char>>,
    status: Option<ToolSearchStatus>,
) -> Option<Seq<char>> {
    match call_id {
        Some(id) if execution == Some(ToolSearchExecution::Client) && status == Some(
            ToolSearchStatus::Completed,
        ) && id.len() > 0 => Some(id),
        _ => None,
    }
}

fn read_finished_id<'a>(
    execution: Option<ToolSearchExecution>,
    call_id: &'a Option<String>,
    status: Option<ToolSearchStatus>,
) -> (id: Option<&'a String>)
    ensures
        match finished_id(execution, crate::data::opt_view(*call_id), status) {
            Some(t) => id matches Some(x) && x@ == t,
            None => id is None,
        },
{
    if execution == Some(ToolSearchExecution::Client) && status == Some(
        ToolSearchStatus::Completed,
    ) {
        if let Some(id) = call_id {
            if !id.as_str().is_empty() {
                return Some(id);
            }
        }
    }
    None
}

/// One item of a history. An output counts where it is finished and follows a finished
/// call with its id, and is the first that does.
pub open spec fn search_step(
    before: ClientSearches,
    item: SearchHistoryItemView,
) -> ClientSearches {
    match item {
        SearchHistoryItemView::Call(call) => match finished_id(
            call.execution,
            call.call_id,
            call.status,
        ) {
            Some(id) => ClientSearches { calls: before.calls.insert(id), ..before },
            None => before,
        },
        SearchHistoryItemView::Output(output) => match finished_id(
            output.execution,
            output.call_id,
            output.status,
        ) {
            Some(id) if before.calls.contains(id) && !before.answered.contains(id) => ClientSearches {
                answered: before.answered.insert(id),
                outputs: before.outputs.push(output),
                ..before
            },
            _ => before,
        },
        SearchHistoryItemView::Other(_) => before,
    }
}

/// The searches of the first `n` items.
pub open spec fn searches(items: Seq<SearchHistoryItemView>, n: int) -> ClientSearches
    decreases n,
{
    if n <= 0 {
        ClientSearches { calls: Set::empty(), answered: Set::empty(), outputs: Seq::empty() }
    } else {
        search_step(searches(items, n - 1), items[n - 1])
    }
}

/// The outputs of a history that count.
pub open spec fn valid_outputs(history: SearchHistoryView) -> Seq<ClientSearchOutputView> {
    match history {
        SearchHistoryView::Text(_) => Seq::empty(),
        SearchHistoryView::Items(items) => searches(items, items.len() as int).outputs,
    }
}

/// The outputs of a history that count, in its order.
pub fn valid_client_tool_search_outputs(history: &SearchHistory) -> (outputs: Vec<
    &ClientSearchOutput,
>)
    ensures
        crate::data::views(outputs@) == valid_outputs(history@),
{
    let mut outputs: Vec<&ClientSearchOutput> = Vec::new();
    proof {
        assert(crate::data::views(outputs@) =~= Seq::empty());
    }
    let items = match history {
        SearchHistory::Items(items) => items,
        SearchHistory::Text(_) => {
            return outputs;
        },
    };
    let ghost all = crate::data::views(items@);
    let mut calls: Keys<String> = Keys::new();
    let mut answered: Keys<String> = Keys::new();
    let mut i: usize = 0;
    while i < items.len()
        invariant
            i <= items@.len(),
            all == crate::data::views(items@),
            searches(all, i as int) == (ClientSearches {
                calls: calls@,
                answered: answered@,
                outputs: crate::data::views(outputs@),
            }),
        decreases items@.len() - i,
    {
        proof {
            assert(all[i as int] == items@[i as int]@);
        }
        match &items[i] {
            SearchHistoryItem::Call(call) => {
                if let Some(id) = read_finished_id(call.execution, &call.call_id, call.status) {
                    let _ = calls.insert(id.clone());
                }
            },
            SearchHistoryItem::Output(output) => {
                if let Some(id) = read_finished_id(
                    output.execution,
                    &output.call_id,
                    output.status,
                ) {
                    if calls.contains(id) && !answered.contains(id) {
                        let _ = answered.insert(id.clone());
                        proof {
                            crate::data::views_push(outputs@, output);
                        }
                        outputs.push(output);
                    }
                }
            },
            SearchHistoryItem::Other(_) => {},
        }
        i = i + 1;
    }
    outputs
}

/// Whether an item among the first `n` is a search that the client has run under an id.
pub open spec fn is_run_by(items: Seq<SearchHistoryItemView>, n: int, id: Seq<char>) -> bool {
    exists|a: int|
        0 <= a < n && (#[trigger] items[a] matches SearchHistoryItemView::Call(call) && finished_id(
            call.execution,
            call.call_id,
            call.status,
        ) == Some(id))
}

/// Whether an output stands among the first `n` items, is finished, and comes after the
/// finished search that it answers.
pub open spec fn answers_a_search(
    items: Seq<SearchHistoryItemView>,
    n: int,
    output: ClientSearchOutputView,
) -> bool {
    exists|b: int|
        0 <= b < n && #[trigger] items[b] == SearchHistoryItemView::Output(output) && (finished_id(
            output.execution,
            output.call_id,
            output.status,
        ) matches Some(id) && is_run_by(items, b, id))
}

/// Every output that counts is finished and comes after the finished search of the client
/// that it answers.
pub proof fn outputs_answer_searches(items: Seq<SearchHistoryItemView>, i: int)
    requires
        0 <= i < searches(items, items.len() as int).outputs.len(),
    ensures
        answers_a_search(
            items,
            items.len() as int,
            searches(items, items.len() as int).outputs[i],
        ),
{
    searches_are_answered(items, items.len() as int);
}

proof fn searches_are_answered(items: Seq<SearchHistoryItemView>, n: int)
    requires
        0 <= n <= items.len(),
    ensures
        forall|id: Seq<char>| #[trigger]
            searches(items, n).calls.contains(id) ==> is_run_by(items, n, id),
        forall|i: int|
            0 <= i < searches(items, n).outputs.len() ==> answers_a_search(
                items,
                n,
                #[trigger] searches(items, n).outputs[i],
            ),
    decreases n,
{
    if n > 0 {
        searches_are_answered(items, n - 1);
        let before = searches(items, n - 1);
        let after = searches(items, n);
        assert forall|id: Seq<char>| #[trigger] after.calls.contains(id) implies is_run_by(
            items,
            n,
            id,
        ) by {
            if before.calls.contains(id) {
                assert(is_run_by(items, n - 1, id));
            } else {
                assert(items[n - 1] is Call);
            }
        }
        assert forall|i: int| 0 <= i < after.outputs.len() implies answers_a_search(
            items,
            n,
            #[trigger] after.outputs[i],
        ) by {
            if i < before.outputs.len() {
                assert(after.outputs[i] == before.outputs[i]);
                assert(answers_a_search(items, n - 1, before.outputs[i]));
            } else {
                assert(items[n - 1] == SearchHistoryItemView::Output(after.outputs[i]));
            }
        }
    }
}

/// For each id at most one output counts: the first that follows its call.
pub proof fn first_output_counts(items: Seq<SearchHistoryItemView>)
    ensures
        forall|i: int, j: int|
            0 <= i < j < searches(items, items.len() as int).outputs.len() ==> (
            #[trigger] searches(items, items.len() as int).outputs[i]).call_id != (
            #[trigger] searches(items, items.len() as int).outputs[j]).call_id,
{
    outputs_are_distinct(items, items.len() as int);
}

proof fn outputs_are_distinct(items: Seq<SearchHistoryItemView>, n: int)
    ensures
        forall|i: int, j: int|
            0 <= i < j < searches(items, n).outputs.len() ==> (
            #[trigger] searches(items, n).outputs[i]).call_id != (
            #[trigger] searches(items, n).outputs[j]).call_id,
        forall|i: int|
            0 <= i < searches(items, n).outputs.len() ==> ((
            #[trigger] searches(items, n).outputs[i]).call_id matches Some(id) && searches(
                items,
                n,
            ).answered.contains(id)),
    decreases n,
{
    if n > 0 {
        outputs_are_distinct(items, n - 1);
    }
}

/// The tools of the first `n` outputs, one output after the other.
pub open spec fn found_tools(outputs: Seq<ClientSearchOutputView>, n: int) -> Seq<JsonView>
    decreases n,
{
    if n <= 0 {
        Seq::empty()
    } else {
        found_tools(outputs, n - 1) + outputs[n - 1].tools
    }
}

/// The tools that a history's searches found.
pub open spec fn tools_found(history: SearchHistoryView) -> Seq<JsonView> {
    let outputs = valid_outputs(history);
    found_tools(outputs, outputs.len() as int)
}

fn collect_tools(history: &SearchHistory) -> (tools: Vec<&Json>)
    ensures
        crate::data::views(tools@) == tools_found(history@),
{
    let outputs = valid_client_tool_search_outputs(history);
    let ghost all = crate::data::views(outputs@);
    let mut tools: Vec<&Json> = Vec::new();
    proof {
        assert(crate::data::views(tools@) =~= Seq::empty());
        assert(all.len() == outputs@.len());
    }
    let mut i: usize = 0;
    while i < outputs.len()
        invariant
            i <= outputs@.len(),
            all == crate::data::views(outputs@),
            crate::data::views(tools@) == found_tools(all, i as int),
        decreases outputs@.len() - i,
    {
        let output = outputs[i];
        let ghost start = crate::data::views(tools@);
        let ghost found = output@.tools;
        proof {
            assert(all[i as int] == output@);
            assert(start + found.take(0) =~= start);
        }
        let mut j: usize = 0;
        while j < output.tools.len()
            invariant
                j <= output.tools@.len(),
                found == crate::data::views(output.tools@),
                crate::data::views(tools@) == start + found.take(j as int),
            decreases output.tools@.len() - j,
        {
            let tool: &Json = &output.tools[j];
            proof {
                assert(found[j as int] == tool@);
                assert(found.take(j + 1) =~= found.take(j as int).push(tool@));
                assert(start + found.take(j + 1) =~= (start + found.take(j as int)).push(tool@));
                crate::data::views_push(tools@, tool);
            }
            tools.push(tool);
            j = j + 1;
        }
        proof {
            assert(found.take(found.len() as int) =~= found);
        }
        i = i + 1;
    }
    tools
}

/// The name of a definition of a kind, where it has one.
pub open spec fn named(tool: JsonView, kind: Seq<char>) -> Option<Seq<char>> {
    match tool {
        JsonView::Object(fields) => match crate::json::text_field(fields, "name"@) {
            Some(name) if crate::json::text_field(
                fields,
                "type"@,
            ) == Some(kind) && name.len() > 0 => Some(
                name,
            ),
            _ => None,
        },
        _ => None,
    }
}

fn read_named<'a>(tool: &'a Json, kind: &str) -> (name: Option<&'a str>)
    ensures
        crate::json::str_view(name) == named(tool@, kind@),
{
    if let Json::Object(fields) = tool {
        if fields.field_is("type", kind) {
            if let Some(name) = fields.get_str("name") {
                if !name.is_empty() {
                    return Some(name);
                }
            }
        }
    }
    None
}

/// The names of those of the first `n` tools that are functions.
pub open spec fn function_names(tools: Seq<JsonView>, n: int) -> Set<Seq<char>>
    decreases n,
{
    if n <= 0 {
        Set::empty()
    } else {
        match named(tools[n - 1], "function"@) {
            Some(name) => function_names(tools, n - 1).insert(name),
            None => function_names(tools, n - 1),
        }
    }
}

fn top_level_function_names(tools: &Vec<&Json>) -> (names: Keys<String>)
    ensures
        names@ == function_names(crate::data::views(tools@), tools@.len() as int),
{
    let ghost all = crate::data::views(tools@);
    let mut names: Keys<String> = Keys::new();
    let mut i: usize = 0;
    while i < tools.len()
        invariant
            i <= tools@.len(),
            all == crate::data::views(tools@),
            names@ == function_names(all, i as int),
        decreases tools@.len() - i,
    {
        proof {
            assert(all[i as int] == tools@[i as int]@);
        }
        if let Some(name) = read_named(tools[i], "function") {
            let _ = names.insert(name.to_owned());
        }
        i = i + 1;
    }
    names
}

/// The members of a namespace, as far as they are given.
pub open spec fn members_given(tool: JsonView) -> Seq<JsonView> {
    match crate::json::field(tool, "tools"@) {
        Some(JsonView::Array(members)) => members,
        _ => Seq::empty(),
    }
}

/// The claims after the first `n` members of a namespace. A name that two namespaces claim
/// is neither's.
pub open spec fn with_claims(
    claims: Map<Seq<char>, NamespaceClaimView>,
    namespace: Seq<char>,
    members: Seq<JsonView>,
    n: int,
) -> Map<Seq<char>, NamespaceClaimView>
    decreases n,
{
    if n <= 0 {
        claims
    } else {
        let before = with_claims(claims, namespace, members, n - 1);
        match named(members[n - 1], "function"@) {
            Some(name) => before.insert(
                name,
                NamespaceClaimView {
                    namespace: if !before.contains_key(name) || before[name].namespace == Some(
                        namespace,
                    ) {
                        Some(namespace)
                    } else {
                        None
                    },
                },
            ),
            None => before,
        }
    }
}

fn add_claims(claims: &mut Table<String, NamespaceClaim>, namespace: &str, members: &Vec<Json>)
    ensures
        final(claims)@ == with_claims(
            old(claims)@,
            namespace@,
            crate::data::views(members@),
            members@.len() as int,
        ),
{
    let ghost start = claims@;
    let ghost all = crate::data::views(members@);
    let mut i: usize = 0;
    while i < members.len()
        invariant
            i <= members@.len(),
            all == crate::data::views(members@),
            claims@ == with_claims(start, namespace@, all, i as int),
        decreases members@.len() - i,
    {
        proof {
            assert(all[i as int] == members@[i as int]@);
        }
        if let Some(name) = read_named(&members[i], "function") {
            let name = name.to_owned();
            let ours = match claims.get(&name) {
                Some(claim) => match &claim.namespace {
                    Some(other) => same_text(other.as_str(), namespace),
                    None => false,
                },
                None => true,
            };
            let claim = NamespaceClaim {
                namespace: if ours {
                    Some(namespace.to_owned())
                } else {
                    None
                },
            };
            claims.insert(name, claim);
        }
        i = i + 1;
    }
}

/// The claims of the namespaces among the first `n` tools.
pub open spec fn claims_of(tools: Seq<JsonView>, n: int) -> Map<Seq<char>, NamespaceClaimView>
    decreases n,
{
    if n <= 0 {
        Map::empty()
    } else {
        match named(tools[n - 1], "namespace"@) {
            Some(namespace) => with_claims(
                claims_of(tools, n - 1),
                namespace,
                members_given(tools[n - 1]),
                members_given(tools[n - 1]).len() as int,
            ),
            None => claims_of(tools, n - 1),
        }
    }
}

/// The namespace of each member that searches found, where that is without doubt: no other
/// namespace and no function of its own has the name.
pub open spec fn namespaces_of(tools: Seq<JsonView>) -> Map<Seq<char>, Seq<char>> {
    let claims = claims_of(tools, tools.len() as int);
    let direct = function_names(tools, tools.len() as int);
    Map::new(
        |name: Seq<char>| claims.contains_key(name) && claims[name].namespace is Some && !direct.contains(
            name,
        ),
        |name: Seq<char>| claims[name].namespace->0,
    )
}

fn read_namespaces(tools: &Vec<&Json>) -> (namespaces: Table<String, String>)
    ensures
        namespaces@ == namespaces_of(crate::data::views(tools@)),
{
    let direct = top_level_function_names(tools);
    let ghost all = crate::data::views(tools@);
    let mut claims: Table<String, NamespaceClaim> = Table::new();
    let mut i: usize = 0;
    while i < tools.len()
        invariant
            i <= tools@.len(),
            all == crate::data::views(tools@),
            claims@ == claims_of(all, i as int),
        decreases tools@.len() - i,
    {
        proof {
            assert(all[i as int] == tools@[i as int]@);
        }
        if let Some(namespace) = read_named(tools[i], "namespace") {
            if let Some(Json::Array(members)) = tools[i].get("tools") {
                proof {
                    assert(crate::json::array_view(members@) =~= crate::data::views(members@));
                }
                add_claims(&mut claims, namespace, members);
            }
        }
        i = i + 1;
    }
    proof {
        assert(all.len() == tools@.len());
    }
    let mut namespaces: Table<String, String> = Table::new();
    let n: usize = claims.len();
    let ghost keys = claims.keys();
    let ghost known = namespaces_of(all);
    let mut k: usize = 0;
    while k < n
        invariant
            k <= n == keys.len(),
            keys == claims.keys(),
            claims@ == claims_of(all, all.len() as int),
            direct@ == function_names(all, all.len() as int),
            known == namespaces_of(all),
            forall|name: Seq<char>| #[trigger]
                namespaces@.contains_key(name) ==> known.contains_key(name) && namespaces@[name]
                    == known[name],
            forall|j: int|
                0 <= j < k && known.contains_key(#[trigger] keys[j]) ==> namespaces@.contains_key(
                    keys[j],
                ),
        decreases n - k,
    {
        let name = claims.key_at(k);
        let claim = claims.value_at(k);
        if let Some(namespace) = &claim.namespace {
            if !direct.contains(name) {
                namespaces.insert(name.clone(), namespace.clone());
            }
        }
        k = k + 1;
    }
    proof {
        assert forall|name: Seq<char>| #[trigger]
            known.contains_key(name) implies namespaces@.contains_key(name) by {
            assert(claims@.contains_key(name));
            assert(keys.contains(name));
            let j = choose|j: int| 0 <= j < keys.len() && keys[j] == name;
            assert(known.contains_key(keys[j]));
        }
        assert(namespaces@ =~= known);
    }
    namespaces
}

/// The namespace of each member that a history's searches found, where that is without
/// doubt.
pub fn loaded_namespace_members(history: &SearchHistory) -> (namespaces: Table<String, String>)
    ensures
        namespaces@ == namespaces_of(tools_found(history@)),
{
    let tools = collect_tools(history);
    read_namespaces(&tools)
}

/// Whether one of the first `n` members is a function of a name.
pub open spec fn has_member(members: Seq<JsonView>, n: int, name: Seq<char>) -> bool {
    exists|k: int| 0 <= k < n && named(#[trigger] members[k], "function"@) == Some(name)
}

proof fn claims_of_members(
    claims: Map<Seq<char>, NamespaceClaimView>,
    namespace: Seq<char>,
    members: Seq<JsonView>,
    n: int,
    name: Seq<char>,
)
    requires
        0 <= n <= members.len(),
    ensures
        has_member(members, n, name) ==> {
            let after = with_claims(claims, namespace, members, n);
            &&& after.contains_key(name)
            &&& after[name].namespace matches Some(owner) ==> owner == namespace && (
            claims.contains_key(name) ==> claims[name].namespace == Some(namespace))
        },
        !has_member(members, n, name) ==> {
            let after = with_claims(claims, namespace, members, n);
            &&& after.contains_key(name) == claims.contains_key(name)
            &&& claims.contains_key(name) ==> after[name] == claims[name]
        },
    decreases n,
{
    if n > 0 {
        claims_of_members(claims, namespace, members, n - 1, name);
        if named(members[n - 1], "function"@) == Some(name) {
            assert(has_member(members, n, name));
        } else {
            assert(has_member(members, n, name) ==> has_member(members, n - 1, name));
        }
    }
}

/// Whether the namespace that a tool is has a function of a name.
pub open spec fn claims_name(tool: JsonView, namespace: Seq<char>, name: Seq<char>) -> bool {
    &&& named(tool, "namespace"@) == Some(namespace)
    &&& has_member(members_given(tool), members_given(tool).len() as int, name)
}

proof fn claims_are_shared(tools: Seq<JsonView>, n: int, i: int, namespace: Seq<char>, name: Seq<char>)
    requires
        0 <= i < n <= tools.len(),
        claims_name(tools[i], namespace, name),
    ensures
        claims_of(tools, n).contains_key(name),
        claims_of(tools, n)[name].namespace matches Some(owner) ==> owner == namespace,
    decreases n,
{
    if let Some(last) = named(tools[n - 1], "namespace"@) {
        claims_of_members(
            claims_of(tools, n - 1),
            last,
            members_given(tools[n - 1]),
            members_given(tools[n - 1]).len() as int,
            name,
        );
    }
    if i < n - 1 {
        claims_are_shared(tools, n - 1, i, namespace, name);
    }
}

/// A name that two namespaces have is neither's: no namespace is guessed for it.
pub proof fn shared_names_have_no_namespace(
    tools: Seq<JsonView>,
    i: int,
    j: int,
    one: Seq<char>,
    other: Seq<char>,
    name: Seq<char>,
)
    requires
        0 <= i < tools.len(),
        0 <= j < tools.len(),
        claims_name(tools[i], one, name),
        claims_name(tools[j], other, name),
        one != other,
    ensures
        !namespaces_of(tools).contains_key(name),
{
    claims_are_shared(tools, tools.len() as int, i, one, name);
    claims_are_shared(tools, tools.len() as int, j, other, name);
}

/// A function that stands beside the namespaces wins over a member of its name.
pub proof fn direct_names_win(history: SearchHistoryView, i: int)
    requires
        0 <= i < tools_found(history).len(),
    ensures
        named(tools_found(history)[i], "function"@) matches Some(name) ==> !namespaces_of(
            tools_found(history),
        ).contains_key(name),
{
    let tools = tools_found(history);
    if let Some(name) = named(tools[i], "function"@) {
        name_is_found(tools, i, tools.len() as int);
    }
}

proof fn name_is_found(tools: Seq<JsonView>, i: int, n: int)
    requires
        0 <= i < n <= tools.len(),
        named(tools[i], "function"@) is Some,
    ensures
        function_names(tools, n).contains(named(tools[i], "function"@)->0),
    decreases n,
{
    if i < n - 1 {
        name_is_found(tools, i, n - 1);
    }
}

/// The function that a definition is.
pub open spec fn found_function(tool: JsonView) -> Option<FunctionToolView> {
    match named(tool, "function"@) {
        Some(name) => Some(
            FunctionToolView {
                type_: "function"@,
                name,
                description: crate::json::text_of(crate::json::field(tool, "description"@)),
                parameters: crate::custom::non_null(crate::json::field(tool, "parameters"@)),
                strict: match crate::json::field(tool, "strict"@) {
                    Some(JsonView::Bool(b)) => Some(b),
                    _ => None,
                },
            },
        ),
        None => None,
    }
}

fn function_tool_from_value(tool: &Json) -> (function: Option<FunctionTool>)
    ensures
        crate::data::opt_view(function) == found_function(tool@),
{
    let name = match read_named(tool, "function") {
        Some(name) => name.to_owned(),
        None => {
            return None;
        },
    };
    Some(
        FunctionTool {
            type_: "function".to_owned(),
            name,
            description: match tool.get_str("description") {
                Some(text) => Some(text.to_owned()),
                None => None,
            },
            parameters: crate::custom::copy_non_null(tool.get("parameters")),
            strict: match tool.get("strict") {
                Some(Json::Bool(b)) => Some(*b),
                _ => None,
            },
        },
    )
}

/// The functions that are shown to the model, and their names.
#[verifier::ext_equal]
pub struct Promoted {
    pub names: Set<Seq<char>>,
    pub functions: Seq<FunctionToolView>,
}

/// With one function more, unless its name is taken.
pub open spec fn promote(before: Promoted, function: FunctionToolView) -> Promoted {
    if before.names.contains(function.name) {
        before
    } else {
        Promoted {
            names: before.names.insert(function.name),
            functions: before.functions.push(function),
        }
    }
}

/// With those of the first `n` members that are without doubt of the namespace.
pub open spec fn promote_members(
    before: Promoted,
    namespaces: Map<Seq<char>, Seq<char>>,
    namespace: Seq<char>,
    members: Seq<JsonView>,
    n: int,
) -> Promoted
    decreases n,
{
    if n <= 0 {
        before
    } else {
        let so_far = promote_members(before, namespaces, namespace, members, n - 1);
        match found_function(members[n - 1]) {
            Some(function) if namespaces.contains_key(function.name) && namespaces[function.name]
                == namespace => promote(so_far, function),
            _ => so_far,
        }
    }
}

/// The functions of the first `n` tools, and of the namespaces among them.
pub open spec fn promoted(
    tools: Seq<JsonView>,
    namespaces: Map<Seq<char>, Seq<char>>,
    n: int,
) -> Promoted
    decreases n,
{
    if n <= 0 {
        Promoted { names: Set::empty(), functions: Seq::empty() }
    } else {
        let before = promoted(tools, namespaces, n - 1);
        match found_function(tools[n - 1]) {
            Some(function) => promote(before, function),
            None => match named(tools[n - 1], "namespace"@) {
                Some(namespace) => promote_members(
                    before,
                    namespaces,
                    namespace,
                    members_given(tools[n - 1]),
                    members_given(tools[n - 1]).len() as int,
                ),
                None => before,
            },
        }
    }
}

/// The functions that a history's searches loaded.
pub open spec fn loaded_functions(history: SearchHistoryView) -> Promoted {
    let tools = tools_found(history);
    promoted(tools, namespaces_of(tools), tools.len() as int)
}

fn add_function(names: &mut Keys<String>, functions: &mut Vec<FunctionTool>, function: FunctionTool)
    ensures
        (Promoted { names: final(names)@, functions: crate::data::views(final(functions)@) })
            == promote(
            Promoted { names: old(names)@, functions: crate::data::views(old(functions)@) },
            function@,
        ),
{
    if names.insert(function.name.clone()) {
        proof {
            crate::data::views_push(functions@, function);
        }
        functions.push(function);
    }
}

fn add_members(
    names: &mut Keys<String>,
    functions: &mut Vec<FunctionTool>,
    namespaces: &Table<String, String>,
    namespace: &str,
    members: &Vec<Json>,
)
    ensures
        (Promoted { names: final(names)@, functions: crate::data::views(final(functions)@) })
            == promote_members(
            Promoted { names: old(names)@, functions: crate::data::views(old(functions)@) },
            namespaces@,
            namespace@,
            crate::data::views(members@),
            members@.len() as int,
        ),
{
    let ghost start = Promoted { names: names@, functions: crate::data::views(functions@) };
    let ghost all = crate::data::views(members@);
    let mut i: usize = 0;
    while i < members.len()
        invariant
            i <= members@.len(),
            all == crate::data::views(members@),
            (Promoted { names: names@, functions: crate::data::views(functions@) })
                == promote_members(start, namespaces@, namespace@, all, i as int),
        decreases members@.len() - i,
    {
        proof {
            assert(all[i as int] == members@[i as int]@);
        }
        if let Some(function) = function_tool_from_value(&members[i]) {
            let ours = match namespaces.get(&function.name) {
                Some(owner) => same_text(owner.as_str(), namespace),
                None => false,
            };
            if ours {
                add_function(names, functions, function);
            }
        }
        i = i + 1;
    }
}

/// The functions that a history's searches loaded, for the next call of the model.
pub fn loaded_function_tools(history: &SearchHistory) -> (functions: Vec<FunctionTool>)
    ensures
        crate::data::views(functions@) == loaded_functions(history@).functions,
{
    let tools = collect_tools(history);
    let namespaces = read_namespaces(&tools);
    let ghost all = crate::data::views(tools@);
    let mut names: Keys<String> = Keys::new();
    let mut functions: Vec<FunctionTool> = Vec::new();
    proof {
        assert(crate::data::views(functions@) =~= Seq::empty());
        assert(all.len() == tools@.len());
    }
    let mut i: usize = 0;
    while i < tools.len()
        invariant
            i <= tools@.len(),
            all == crate::data::views(tools@),
            (Promoted { names: names@, functions: crate::data::views(functions@) }) == promoted(
                all,
                namespaces@,
                i as int,
            ),
        decreases tools@.len() - i,
    {
        let tool = tools[i];
        proof {
            assert(all[i as int] == tool@);
        }
        if let Some(function) = function_tool_from_value(tool) {
            add_function(&mut names, &mut functions, function);
        } else if let Some(namespace) = read_named(tool, "namespace") {
            if let Some(Json::Array(members)) = tool.get("tools") {
                proof {
                    assert(crate::json::array_view(members@) =~= crate::data::views(members@));
                }
                add_members(&mut names, &mut functions, &namespaces, namespace, members);
            }
        }
        i = i + 1;
    }
    functions
}

/// No function is loaded twice.
pub proof fn loaded_functions_are_distinct(history: SearchHistoryView)
    ensures
        forall|i: int, j: int|
            0 <= i < j < loaded_functions(history).functions.len() ==> (
            #[trigger] loaded_functions(history).functions[i]).name != (
            #[trigger] loaded_functions(history).functions[j]).name,
{
    let tools = tools_found(history);
    promoted_are_distinct(tools, namespaces_of(tools), tools.len() as int);
}

/// Whether the functions have the names that are noted, and no two the same.
spec fn distinct(p: Promoted) -> bool {
    &&& forall|i: int, j: int|
        0 <= i < j < p.functions.len() ==> (#[trigger] p.functions[i]).name != (
        #[trigger] p.functions[j]).name
    &&& forall|i: int|
        0 <= i < p.functions.len() ==> p.names.contains((#[trigger] p.functions[i]).name)
}

proof fn promoted_are_distinct(tools: Seq<JsonView>, namespaces: Map<Seq<char>, Seq<char>>, n: int)
    ensures
        distinct(promoted(tools, namespaces, n)),
    decreases n,
{
    if n > 0 {
        promoted_are_distinct(tools, namespaces, n - 1);
        let before = promoted(tools, namespaces, n - 1);
        if found_function(tools[n - 1]) is None {
            if let Some(namespace) = named(tools[n - 1], "namespace"@) {
                let members = members_given(tools[n - 1]);
                members_are_distinct(before, namespaces, namespace, members, members.len() as int);
            }
        }
    }
}

proof fn members_are_distinct(
    before: Promoted,
    namespaces: Map<Seq<char>, Seq<char>>,
    namespace: Seq<char>,
    members: Seq<JsonView>,
    n: int,
)
    requires
        distinct(before),
    ensures
        distinct(promote_members(before, namespaces, namespace, members, n)),
    decreases n,
{
    if n > 0 {
        members_are_distinct(before, namespaces, namespace, members, n - 1);
    }
}

/// The names that a history's searches loaded: of functions, and of members whose
/// namespace is without doubt.
pub open spec fn loaded_names(history: SearchHistoryView) -> Set<Seq<char>> {
    let tools = tools_found(history);
    function_names(tools, tools.len() as int) + namespaces_of(tools).dom()
}

/// The names that a history's searches loaded.
pub fn loaded_function_names(history: &SearchHistory) -> (names: Keys<String>)
    ensures
        names@ == loaded_names(history@),
{
    let tools = collect_tools(history);
    let mut names = top_level_function_names(&tools);
    let namespaces = read_namespaces(&tools);
    let ghost direct = names@;
    let n: usize = namespaces.len();
    let ghost keys = namespaces.keys();
    proof {
        assert(crate::data::views(tools@).len() == tools@.len());
    }
    let mut i: usize = 0;
    while i < n
        invariant
            i <= n == keys.len(),
            keys == namespaces.keys(),
            forall|name: Seq<char>| namespaces@.contains_key(name) <==> keys.contains(name),
            forall|name: Seq<char>| #[trigger]
                names@.contains(name) ==> direct.contains(name) || namespaces@.contains_key(name),
            forall|name: Seq<char>| #[trigger] direct.contains(name) ==> names@.contains(name),
            forall|j: int| 0 <= j < i ==> names@.contains(#[trigger] keys[j]),
        decreases n - i,
    {
        let _ = names.insert(namespaces.key_at(i).clone());
        i = i + 1;
    }
    proof {
        assert forall|name: Seq<char>| #[trigger]
            namespaces@.contains_key(name) implies names@.contains(name) by {
            assert(keys.contains(name));
            let j = choose|j: int| 0 <= j < keys.len() && keys[j] == name;
            assert(names@.contains(keys[j]));
        }
        assert(names@ =~= direct + namespaces@.dom());
    }
    names
}

/// How far a search is whose call is so far.
pub open spec fn search_status(status: MessageStatus) -> ToolSearchStatus {
    match status {
        MessageStatus::InProgress => ToolSearchStatus::InProgress,
        MessageStatus::Completed => ToolSearchStatus::Completed,
        MessageStatus::Incomplete => ToolSearchStatus::Incomplete,
    }
}

/// An output item with a call that stands for a search given back as one. A call in a
/// namespace, without an id or with arguments that are no JSON stays a call.
pub open spec fn restored_search(item: RestorableItemView) -> RestorableItemView {
    match item {
        RestorableItemView::FunctionCall(call) => match crate::json::parsed_json(call.arguments) {
            Some(arguments) if call.name == "tool_search"@ && call.namespace is None
                && call.call_id.len() > 0 => RestorableItemView::SearchCall(
                ClientSearchCallView {
                    execution: Some(ToolSearchExecution::Client),
                    call_id: Some(call.call_id),
                    status: Some(search_status(call.status)),
                    arguments,
                    extra: Map::empty(),
                },
            ),
            _ => item,
        },
        _ => item,
    }
}

fn restore_search(item: &RestorableItem) -> (out: RestorableItem)
    ensures
        out@ == restored_search(item@),
{
    if let RestorableItem::FunctionCall(call) = item {
        if same_text(call.name.as_str(), TOOL_SEARCH_NAME) && call.namespace.is_none()
            && !call.call_id.as_str().is_empty() {
            if let Some(arguments) = Json::parse(call.arguments.as_str()) {
                return RestorableItem::SearchCall(
                    ClientSearchCall {
                        execution: Some(ToolSearchExecution::Client),
                        call_id: Some(call.call_id.clone()),
                        status: Some(
                            match call.status {
                                MessageStatus::InProgress => ToolSearchStatus::InProgress,
                                MessageStatus::Completed => ToolSearchStatus::Completed,
                                MessageStatus::Incomplete => ToolSearchStatus::Incomplete,
                            },
                        ),
                        arguments,
                        extra: JsonObject::new(),
                    },
                );
            }
        }
    }
    item.copied()
}

/// Gives calls that stand for searches back as such, where that is asked for.
pub fn restore_output_items(
    output: &Vec<RestorableItem>,
    enabled: bool,
) -> (out: Vec<RestorableItem>)
    ensures
        crate::data::views(out@) == (if enabled {
            crate::data::views(output@).map_values(
                |item: RestorableItemView| restored_search(item),
            )
        } else {
            crate::data::views(output@)
        }),
{
    if !enabled {
        return copy_vec(output);
    }
    let mut out: Vec<RestorableItem> = Vec::new();
    let mut i: usize = 0;
    while i < output.len()
        invariant
            i <= output@.len(),
            out@.len() == i,
            forall|j: int| 0 <= j < i ==> (#[trigger] out@[j])@ == restored_search(output@[j]@),
        decreases output@.len() - i,
    {
        out.push(restore_search(&output[i]));
        i = i + 1;
    }
    proof {
        assert(crate::data::views(out@) =~= crate::data::views(output@).map_values(
            |item: RestorableItemView| restored_search(item),
        ));
    }
    out
}

/// An output item with the namespace of a loaded member given back.
pub open spec fn restored_member(
    namespaces: Map<Seq<char>, Seq<char>>,
    item: RestorableItemView,
) -> RestorableItemView {
    match item {
        RestorableItemView::FunctionCall(call) => if call.namespace is None
            && namespaces.contains_key(call.name) {
            RestorableItemView::FunctionCall(
                FunctionToolCallView { namespace: Some(namespaces[call.name]), ..call },
            )
        } else {
            item
        },
        _ => item,
    }
}

/// Gives calls of loaded members their namespaces back.
pub fn restore_loaded_namespace_output_items(
    output: &Vec<RestorableItem>,
    namespaces: &Table<String, String>,
) -> (out: Vec<
    RestorableItem,
>)
    ensures
        crate::data::views(out@) == crate::data::views(output@).map_values(
            |item: RestorableItemView| restored_member(namespaces@, item),
        ),
{
    let mut out: Vec<RestorableItem> = Vec::new();
    let mut i: usize = 0;
    while i < output.len()
        invariant
            i <= output@.len(),
            out@.len() == i,
            forall|j: int|
                0 <= j < i ==> (#[trigger] out@[j])@ == restored_member(
                    namespaces@,
                    output@[j]@,
                ),
        decreases output@.len() - i,
    {
        let mut item = output[i].copied();
        if let RestorableItem::FunctionCall(call) = &output[i] {
            if call.namespace.is_none() {
                if let Some(namespace) = namespaces.get(&call.name) {
                    let mut call = call.copied();
                    call.namespace = Some(namespace.clone());
                    item = RestorableItem::FunctionCall(call);
                }
            }
        }
        out.push(item);
        i = i + 1;
    }
    proof {
        assert(crate::data::views(out@) =~= crate::data::views(output@).map_values(
            |item: RestorableItemView| restored_member(namespaces@, item),
        ));
    }
    out
}

/// The arguments of a call, or an empty object where they are no JSON.
pub open spec fn search_arguments(arguments: Option<Seq<char>>) -> JsonView {
    match arguments {
        Some(text) if text.len() > 0 => match crate::json::parsed_json(text) {
            Some(value) => value,
            None => JsonView::Object(Map::empty()),
        },
        _ => JsonView::Object(Map::empty()),
    }
}

/// Whether fields are those of a call that is in no namespace.
pub open spec fn is_unqualified_call(fields: Map<Seq<char>, JsonView>) -> bool {
    &&& crate::json::text_field(fields, "type"@) == Some("function_call"@)
    &&& crate::json::text_field(fields, "namespace"@) is None
}

/// The fields of a call given back: as a search where no namespaces are given, else with
/// its namespace.
pub open spec fn restored_call_fields(
    namespaces: Option<Map<Seq<char>, Seq<char>>>,
    fields: Map<Seq<char>, JsonView>,
) -> Map<Seq<char>, JsonView> {
    let name = crate::json::text_field(fields, "name"@);
    if !is_unqualified_call(fields) {
        fields
    } else {
        match namespaces {
            Some(known) => match name {
                Some(n) if known.contains_key(n) => fields.insert(
                    "namespace"@,
                    JsonView::Text(known[n]),
                ),
                _ => fields,
            },
            None => match crate::json::text_field(fields, "call_id"@) {
                Some(call_id) if name == Some("tool_search"@) && call_id.len() > 0 => fields.insert(
                    "type"@,
                    JsonView::Text("tool_search_call"@),
                ).insert("execution"@, JsonView::Text("client"@)).insert(
                    "arguments"@,
                    search_arguments(crate::json::text_field(fields, "arguments"@)),
                ).remove("id"@).remove("name"@).remove("namespace"@),
                _ => fields,
            },
        }
    }
}

/// A value with the call that it is given back.
pub open spec fn restored_call(
    namespaces: Option<Map<Seq<char>, Seq<char>>>,
    value: JsonView,
) -> JsonView {
    match value {
        JsonView::Object(fields) => JsonView::Object(restored_call_fields(namespaces, fields)),
        other => other,
    }
}

/// A value with the calls in it given back: its item, its output, the response and the
/// payload that it holds and, where asked for, itself.
pub open spec fn restored_value(
    namespaces: Option<Map<Seq<char>, Seq<char>>>,
    value: JsonView,
    itself: bool,
) -> JsonView
    decreases value,
{
    match value {
        JsonView::Object(fields) => {
            let own = if itself {
                restored_call_fields(namespaces, fields)
            } else {
                fields
            };
            let item = if fields.contains_key("item"@) {
                own.insert("item"@, restored_call(namespaces, fields["item"@]))
            } else {
                own
            };
            let response = if fields.contains_key("response"@) {
                item.insert("response"@, restored_value(namespaces, fields["response"@], true))
            } else {
                item
            };
            let payload = if fields.contains_key("payload"@) {
                response.insert("payload"@, restored_value(namespaces, fields["payload"@], true))
            } else {
                response
            };
            match crate::json::object_field(fields, "output"@) {
                Some(JsonView::Array(items)) => JsonView::Object(
                    payload.insert(
                        "output"@,
                        JsonView::Array(
                            items.map_values(|i: JsonView| restored_call(namespaces, i)),
                        ),
                    ),
                ),
                _ => JsonView::Object(payload),
            }
        },
        other => other,
    }
}

/// The view of namespaces that may be absent.
pub open spec fn names_view(namespaces: Option<&Table<String, String>>) -> Option<
    Map<Seq<char>, Seq<char>>,
> {
    match namespaces {
        Some(table) => Some(table@),
        None => None,
    }
}

fn restore_call_fields(
    namespaces: Option<&Table<String, String>>,
    fields: &JsonObject,
) -> (out: JsonObject)
    ensures
        out@ == restored_call_fields(names_view(namespaces), fields@),
{
    let mut out = fields.copy();
    if !fields.field_is("type", "function_call") || fields.get_str("namespace").is_some() {
        return out;
    }
    match namespaces {
        Some(known) => {
            if let Some(name) = fields.get_str("name") {
                if let Some(namespace) = known.get(&name.to_owned()) {
                    out.set_str("namespace", namespace.as_str());
                }
            }
            out
        },
        None => {
            let called = match fields.get_str("call_id") {
                Some(id) => !id.is_empty(),
                None => false,
            };
            if !called || !fields.field_is("name", TOOL_SEARCH_NAME) {
                return out;
            }
            let mut arguments = Json::Object(JsonObject::new());
            if let Some(text) = fields.get_str("arguments") {
                if !text.is_empty() {
                    if let Some(parsed) = Json::parse(text) {
                        arguments = parsed;
                    }
                }
            }
            out.set_str("type", "tool_search_call");
            out.set_str("execution", "client");
            out.set("arguments", arguments);
            out.remove("id");
            out.remove("name");
            out.remove("namespace");
            out
        },
    }
}

fn restore_call(namespaces: Option<&Table<String, String>>, value: &Json) -> (out: Json)
    ensures
        out@ == restored_call(names_view(namespaces), value@),
{
    match value {
        Json::Object(fields) => Json::Object(restore_call_fields(namespaces, fields)),
        other => other.copy(),
    }
}

fn restore_calls(namespaces: Option<&Table<String, String>>, items: &Vec<Json>) -> (out: Json)
    ensures
        out@ == JsonView::Array(
            crate::data::views(items@).map_values(
                |i: JsonView| restored_call(names_view(namespaces), i),
            ),
        ),
{
    let mut out: Vec<Json> = Vec::new();
    let ghost known = names_view(namespaces);
    let mut i: usize = 0;
    while i < items.len()
        invariant
            i <= items@.len(),
            known == names_view(namespaces),
            out@.len() == i,
            forall|j: int| 0 <= j < i ==> (#[trigger] out@[j])@ == restored_call(known, items@[j]@),
        decreases items@.len() - i,
    {
        out.push(restore_call(namespaces, &items[i]));
        i = i + 1;
    }
    let value = Json::Array(out);
    proof {
        assert(value@->Array_0 =~= crate::data::views(items@).map_values(
            |item: JsonView| restored_call(known, item),
        ));
    }
    value
}

fn restore_value(
    namespaces: Option<&Table<String, String>>,
    value: &Json,
    itself: bool,
) -> (out: Json)
    ensures
        out@ == restored_value(names_view(namespaces), value@, itself),
    decreases value@,
{
    let fields = match value {
        Json::Object(fields) => fields,
        other => {
            return other.copy();
        },
    };
    let mut out = if itself {
        restore_call_fields(namespaces, fields)
    } else {
        fields.copy()
    };
    if let Some(item) = fields.get("item") {
        out.set("item", restore_call(namespaces, item));
    }
    if let Some(response) = fields.get("response") {
        out.set("response", restore_value(namespaces, response, true));
    }
    if let Some(payload) = fields.get("payload") {
        out.set("payload", restore_value(namespaces, payload, true));
    }
    if let Some(Json::Array(items)) = fields.get("output") {
        proof {
            assert(crate::json::array_view(items@) =~= crate::data::views(items@));
        }
        out.set("output", restore_calls(namespaces, items));
    }
    Json::Object(out)
}

/// Gives the calls in an event that stand for searches back as such, where that is asked
/// for, and says whether anything changed.
pub fn restore_response_value(value: &mut Json, enabled: bool) -> (changed: bool)
    ensures
        final(value)@ == (if enabled {
            restored_value(None, old(value)@, true)
        } else {
            old(value)@
        }),
        changed == (final(value)@ != old(value)@),
{
    if !enabled {
        return false;
    }
    let restored = restore_value(None, &*value, true);
    let changed = !restored.same(&*value);
    *value = restored;
    changed
}

/// Gives calls of loaded members in an event their namespaces back, and says whether
/// anything changed.
pub fn restore_loaded_namespace_response_value(
    value: &mut Json,
    namespaces: &Table<String, String>,
) -> (changed: bool)
    ensures
        final(value)@ == restored_value(Some(namespaces@), old(value)@, true),
        changed == (final(value)@ != old(value)@),
{
    let restored = restore_value(Some(namespaces), &*value, true);
    let changed = !restored.same(&*value);
    *value = restored;
    changed
}

/// The fields of an event with the calls in it given back.
pub open spec fn restored_event(
    namespaces: Option<Map<Seq<char>, Seq<char>>>,
    wire: WireEventView,
) -> WireEventView {
    WireEventView {
        rest: match restored_value(namespaces, JsonView::Object(wire.rest), false) {
            JsonView::Object(fields) => fields,
            _ => wire.rest,
        },
        ..wire
    }
}

fn restore_wire(wire: &mut WireEvent, namespaces: Option<&Table<String, String>>) -> (changed: bool)
    ensures
        final(wire)@ == restored_event(names_view(namespaces), old(wire)@),
        changed == (final(wire)@ != old(wire)@),
{
    let value = Json::Object(wire.rest.copy());
    let restored = restore_value(namespaces, &value, false);
    let changed = !restored.same(&value);
    if let Json::Object(fields) = restored {
        wire.rest = fields;
    }
    changed
}

/// Gives the calls in a parsed event that stand for searches back as such, where that is
/// asked for, and says whether anything changed.
pub fn restore_response_wire(wire: &mut WireEvent, enabled: bool) -> (changed: bool)
    ensures
        final(wire)@ == (if enabled {
            restored_event(None, old(wire)@)
        } else {
            old(wire)@
        }),
        changed == (final(wire)@ != old(wire)@),
{
    if !enabled {
        return false;
    }
    restore_wire(wire, None)
}

/// Gives calls of loaded members in a parsed event their namespaces back, and says whether
/// anything changed.
pub fn restore_loaded_namespace_response_wire(
    wire: &mut WireEvent,
    namespaces: &Table<String, String>,
) -> (changed: bool)
    ensures
        final(wire)@ == restored_event(Some(namespaces@), old(wire)@),
        changed == (final(wire)@ != old(wire)@),
{
    restore_wire(wire, Some(namespaces))
}

/// Whether a name is that of a function that a list holds.
pub open spec fn has_function(functions: Seq<FunctionToolView>, name: Seq<char>) -> bool {
    exists|i: int| 0 <= i < functions.len() && (#[trigger] functions[i]).name == name
}

/// Whether the noted names are those of the functions, each of which is well formed.
spec fn well_named(p: Promoted) -> bool {
    &&& forall|name: Seq<char>| #[trigger]
        p.names.contains(name) <==> has_function(p.functions, name)
    &&& forall|i: int|
        0 <= i < p.functions.len() ==> (#[trigger] p.functions[i]).type_ == "function"@
            && p.functions[i].name.len() > 0
}

proof fn promotion_is_well_named(before: Promoted, function: FunctionToolView)
    requires
        well_named(before),
        function.type_ == "function"@,
        function.name.len() > 0,
    ensures
        well_named(promote(before, function)),
{
    let after = promote(before, function);
    if !before.names.contains(function.name) {
        assert forall|name: Seq<char>| #[trigger]
            after.names.contains(name) <==> has_function(after.functions, name) by {
            if has_function(before.functions, name) {
                let i = choose|i: int|
                    0 <= i < before.functions.len() && (#[trigger] before.functions[i]).name == name;
                assert(after.functions[i].name == name);
            }
            if name == function.name {
                assert(after.functions[before.functions.len() as int].name == name);
            }
            if has_function(after.functions, name) && name != function.name {
                let i = choose|i: int|
                    0 <= i < after.functions.len() && (#[trigger] after.functions[i]).name == name;
                assert(before.functions[i].name == name);
            }
        }
    }
}

proof fn promoted_members_are_named(
    before: Promoted,
    namespaces: Map<Seq<char>, Seq<char>>,
    namespace: Seq<char>,
    members: Seq<JsonView>,
    n: int,
    name: Seq<char>,
)
    requires
        0 <= n <= members.len(),
        well_named(before),
    ensures
        well_named(promote_members(before, namespaces, namespace, members, n)),
        promote_members(before, namespaces, namespace, members, n).names.contains(name) <==> (
        before.names.contains(name) || (namespaces.contains_key(name) && namespaces[name]
            == namespace && has_member(members, n, name))),
    decreases n,
{
    if n > 0 {
        promoted_members_are_named(before, namespaces, namespace, members, n - 1, name);
        let so_far = promote_members(before, namespaces, namespace, members, n - 1);
        if let Some(function) = found_function(members[n - 1]) {
            promotion_is_well_named(so_far, function);
        }
        if named(members[n - 1], "function"@) == Some(name) {
            assert(has_member(members, n, name));
        } else {
            assert(has_member(members, n, name) ==> has_member(members, n - 1, name));
        }
        if has_member(members, n - 1, name) {
            let k = choose|k: int|
                0 <= k < n - 1 && named(#[trigger] members[k], "function"@) == Some(name);
            assert(0 <= k < n && named(members[k], "function"@) == Some(name));
        }
    }
}

/// Whether one of the first `n` tools is the namespace of a name and has the name.
spec fn placed_member(
    tools: Seq<JsonView>,
    namespaces: Map<Seq<char>, Seq<char>>,
    n: int,
    name: Seq<char>,
) -> bool {
    namespaces.contains_key(name) && exists|i: int|
        0 <= i < n && claims_name(#[trigger] tools[i], namespaces[name], name)
}

proof fn promoted_are_named(
    tools: Seq<JsonView>,
    namespaces: Map<Seq<char>, Seq<char>>,
    n: int,
    name: Seq<char>,
)
    requires
        0 <= n <= tools.len(),
    ensures
        well_named(promoted(tools, namespaces, n)),
        promoted(tools, namespaces, n).names.contains(name) <==> (function_names(
            tools,
            n,
        ).contains(name) || placed_member(tools, namespaces, n, name)),
    decreases n,
{
    reveal_strlit("function");
    reveal_strlit("namespace");
    assert("function"@.len() != "namespace"@.len());
    if n > 0 {
        promoted_are_named(tools, namespaces, n - 1, name);
        let before = promoted(tools, namespaces, n - 1);
        let tool = tools[n - 1];
        if let Some(function) = found_function(tool) {
            promotion_is_well_named(before, function);
        } else if let Some(namespace) = named(tool, "namespace"@) {
            let members = members_given(tool);
            promoted_members_are_named(
                before,
                namespaces,
                namespace,
                members,
                members.len() as int,
                name,
            );
        }
        if placed_member(tools, namespaces, n - 1, name) {
            let i = choose|i: int|
                0 <= i < n - 1 && claims_name(#[trigger] tools[i], namespaces[name], name);
            assert(claims_name(tools[i], namespaces[name], name) && i < n);
        }
        if placed_member(tools, namespaces, n, name) && !claims_name(
            tool,
            namespaces[name],
            name,
        ) {
            let i = choose|i: int|
                0 <= i < n && claims_name(#[trigger] tools[i], namespaces[name], name);
            assert(i < n - 1);
        }
    }
}

proof fn claims_have_owners(tools: Seq<JsonView>, n: int, name: Seq<char>) -> (i: int)
    requires
        0 <= n <= tools.len(),
        claims_of(tools, n).contains_key(name),
        claims_of(tools, n)[name].namespace is Some,
    ensures
        0 <= i < n,
        claims_name(tools[i], claims_of(tools, n)[name].namespace->0, name),
    decreases n,
{
    match named(tools[n - 1], "namespace"@) {
        Some(namespace) => {
            let members = members_given(tools[n - 1]);
            claims_of_members(
                claims_of(tools, n - 1),
                namespace,
                members,
                members.len() as int,
                name,
            );
            if has_member(members, members.len() as int, name) {
                n - 1
            } else {
                claims_have_owners(tools, n - 1, name)
            }
        },
        None => claims_have_owners(tools, n - 1, name),
    }
}

/// The functions that a history's searches loaded have exactly the names that were loaded,
/// and each is a function with a name: one that stands beside the namespaces, or one whose
/// namespace is without doubt.
pub proof fn loaded_functions_have_the_loaded_names(history: SearchHistoryView)
    ensures
        forall|name: Seq<char>| #[trigger]
            has_function(loaded_functions(history).functions, name) <==> loaded_names(
                history,
            ).contains(name),
        forall|i: int|
            0 <= i < loaded_functions(history).functions.len() ==> ({
                let function = #[trigger] loaded_functions(history).functions[i];
                &&& function.type_ == "function"@
                &&& function.name.len() > 0
                &&& function_names(
                    tools_found(history),
                    tools_found(history).len() as int,
                ).contains(function.name) || namespaces_of(tools_found(history)).contains_key(
                    function.name,
                )
            }),
{
    let tools = tools_found(history);
    let namespaces = namespaces_of(tools);
    let n = tools.len() as int;
    let loaded = loaded_functions(history);
    promoted_are_named(tools, namespaces, n, Seq::empty());
    assert forall|name: Seq<char>| #[trigger]
        has_function(loaded.functions, name) <==> loaded_names(history).contains(name) by {
        promoted_are_named(tools, namespaces, n, name);
        assert(loaded.names.contains(name) <==> has_function(loaded.functions, name));
        if namespaces.contains_key(name) {
            let i = claims_have_owners(tools, n, name);
            assert(claims_name(tools[i], namespaces[name], name));
        }
    }
    assert forall|i: int| 0 <= i < loaded.functions.len() implies ({
        let function = #[trigger] loaded.functions[i];
        &&& function.type_ == "function"@
        &&& function.name.len() > 0
        &&& function_names(tools, n).contains(function.name) || namespaces.contains_key(
            function.name,
        )
    }) by {
        assert(has_function(loaded.functions, loaded.functions[i].name));
        assert(loaded_names(history).contains(loaded.functions[i].name));
    }
}

proof fn event_keys_differ()
    ensures
        "item"@ != "response"@,
        "item"@ != "payload"@,
        "item"@ != "output"@,
        "response"@ != "payload"@,
        "response"@ != "output"@,
        "payload"@ != "output"@,
        "function_call"@ != "tool_search_call"@,
        !call_key("item"@),
        !call_key("response"@),
        !call_key("payload"@),
        !call_key("output"@),
{
    reveal_strlit("item");
    reveal_strlit("response");
    reveal_strlit("payload");
    reveal_strlit("output");
    reveal_strlit("function_call");
    reveal_strlit("tool_search_call");
    reveal_strlit("type");
    reveal_strlit("execution");
    reveal_strlit("arguments");
    reveal_strlit("id");
    reveal_strlit("name");
    reveal_strlit("namespace");
    reveal_strlit("call_id");
    assert("item"@.len() == 4 && "type"@.len() == 4 && "name"@.len() == 4);
    assert("execution"@.len() == 9 && "arguments"@.len() == 9 && "namespace"@.len() == 9);
    assert("id"@.len() == 2 && "payload"@.len() == 7 && "call_id"@.len() == 7);
    assert("item"@[0] == 'i' && "type"@[0] == 't' && "name"@[0] == 'n');
    assert("payload"@[0] == 'p' && "call_id"@[0] == 'c');
    assert("response"@.len() == 8 && "output"@.len() == 6);
    assert("function_call"@.len() == 13 && "tool_search_call"@.len() == 16);
}

/// Whether a key is one that says what a call is.
spec fn call_key(key: Seq<char>) -> bool {
    ||| key == "type"@
    ||| key == "execution"@
    ||| key == "arguments"@
    ||| key == "id"@
    ||| key == "name"@
    ||| key == "namespace"@
    ||| key == "call_id"@
}

proof fn call_keys_differ()
    ensures
        "type"@ != "execution"@,
        "type"@ != "arguments"@,
        "type"@ != "id"@,
        "type"@ != "name"@,
        "type"@ != "namespace"@,
{
    reveal_strlit("type");
    reveal_strlit("execution");
    reveal_strlit("arguments");
    reveal_strlit("id");
    reveal_strlit("name");
    reveal_strlit("namespace");
    assert("type"@[0] == 't' && "name"@[0] == 'n');
}

/// Fields that agree on what a call is with fields in which it was given back are given back
/// already.
proof fn call_is_given_back_once(
    namespaces: Option<Map<Seq<char>, Seq<char>>>,
    fields: Map<Seq<char>, JsonView>,
    after: Map<Seq<char>, JsonView>,
)
    requires
        forall|key: Seq<char>| #[trigger]
            call_key(key) ==> crate::json::object_field(after, key) == crate::json::object_field(
                restored_call_fields(namespaces, fields),
                key,
            ),
    ensures
        restored_call_fields(namespaces, after) == after,
{
    event_keys_differ();
    call_keys_differ();
    let restored = restored_call_fields(namespaces, fields);
    assert(call_key("type"@) && call_key("name"@) && call_key("namespace"@) && call_key(
        "call_id"@,
    ));
    if is_unqualified_call(fields) {
        match namespaces {
            Some(known) => match crate::json::text_field(fields, "name"@) {
                Some(name) if known.contains_key(name) => {
                    assert(crate::json::text_field(restored, "namespace"@) is Some);
                    assert(crate::json::text_field(after, "namespace"@) is Some);
                },
                _ => {},
            },
            None => match crate::json::text_field(fields, "call_id"@) {
                Some(call_id) if crate::json::text_field(fields, "name"@) == Some("tool_search"@)
                    && call_id.len() > 0 => {
                    assert(crate::json::text_field(restored, "type"@) == Some(
                        "tool_search_call"@,
                    ));
                },
                _ => {},
            },
        }
    }
}

/// What was given back once stays as it is: giving the calls in a value back again changes
/// nothing.
pub proof fn restoring_again_changes_nothing(
    namespaces: Option<Map<Seq<char>, Seq<char>>>,
    value: JsonView,
    itself: bool,
)
    ensures
        restored_value(namespaces, restored_value(namespaces, value, itself), itself)
            == restored_value(namespaces, value, itself),
    decreases value,
{
    if let JsonView::Object(fields) = value {
        event_keys_differ();
        let own = if itself {
            restored_call_fields(namespaces, fields)
        } else {
            fields
        };
        let once = restored_value(namespaces, value, itself);
        let after = once->Object_0;
        assert forall|key: Seq<char>| key != "item"@ && key != "response"@ && key != "payload"@
            && key != "output"@ implies after.contains_key(key) == own.contains_key(key) && (
        after.contains_key(key) ==> #[trigger] after[key] == own[key]) by {}
        assert(own.contains_key("item"@) == fields.contains_key("item"@));
        assert(own.contains_key("response"@) == fields.contains_key("response"@));
        assert(own.contains_key("payload"@) == fields.contains_key("payload"@));
        assert(crate::json::object_field(own, "output"@) == crate::json::object_field(
            fields,
            "output"@,
        ));
        if itself {
            call_is_given_back_once(namespaces, fields, after);
        }
        if fields.contains_key("item"@) {
            if let JsonView::Object(item) = fields["item"@] {
                call_is_given_back_once(
                    namespaces,
                    item,
                    restored_call_fields(namespaces, item),
                );
            }
            assert(after["item"@] == restored_call(namespaces, fields["item"@]));
        }
        if fields.contains_key("response"@) {
            restoring_again_changes_nothing(namespaces, fields["response"@], true);
            assert(after["response"@] == restored_value(namespaces, fields["response"@], true));
        }
        if fields.contains_key("payload"@) {
            restoring_again_changes_nothing(namespaces, fields["payload"@], true);
            assert(after["payload"@] == restored_value(namespaces, fields["payload"@], true));
        }
        if let Some(JsonView::Array(items)) = crate::json::object_field(fields, "output"@) {
            let restored = items.map_values(|i: JsonView| restored_call(namespaces, i));
            assert(crate::json::object_field(after, "output"@) == Some(
                JsonView::Array(restored),
            ));
            assert forall|i: int| 0 <= i < items.len() implies restored_call(
                namespaces,
                #[trigger] restored[i],
            ) == restored[i] by {
                if let JsonView::Object(item) = items[i] {
                    call_is_given_back_once(
                        namespaces,
                        item,
                        restored_call_fields(namespaces, item),
                    );
                }
            }
            assert(restored.map_values(|i: JsonView| restored_call(namespaces, i)) =~= restored);
        } else {
            assert(crate::json::object_field(after, "output"@) == crate::json::object_field(
                fields,
                "output"@,
            ));
        }
        let twice = restored_value(namespaces, once, itself);
        assert(twice->Object_0 =~= after);
    }
}

/// A call of another function, one in a namespace and one without a `call_id` are no
/// searches, and stay as they are.
pub proof fn other_calls_stay(fields: Map<Seq<char>, JsonView>)
    requires
        crate::json::text_field(fields, "name"@) != Some("tool_search"@)
            || crate::json::text_field(fields, "namespace"@) is Some || crate::wire::text_or(
            fields,
            "call_id"@,
            Seq::empty(),
        ).len() == 0,
    ensures
        restored_call_fields(None, fields) == fields,
{
}

} // verus!
