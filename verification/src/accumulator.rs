//! Accumulation of a response from stream events or from one JSON body.
use vstd::prelude::*;
#[allow(unused_imports)]
use vstd::string::*;

use crate::data::{copy_opt, Data};
#[allow(unused_imports)]
use crate::error::{
    invalid_upstream_search_call, invalid_upstream_withheld_function_call, ExecutorError,
    ExecutorErrorView, ToolError, ToolErrorView,
};
use crate::events::{
    normalize_sse_line, read_usage, EventFrame, EventPayload, SSEEventType, SSEItemType,
};
#[allow(unused_imports)]
use crate::events::{EventFrameView, EventPayloadView};
use crate::ids::{fresh_uuid, now_seconds};
use crate::in_flight::{InFlight, InFlightEntry, InFlightItems};
#[allow(unused_imports)]
use crate::in_flight::{InFlightEntryView, InFlightView};
use crate::items::{
    CompactionItem, CustomToolCall, FunctionToolCall, McpCall, McpCallStatus, McpListTools,
    MessageStatus, OutputItem, OutputMessage, OutputTextContent, ReasoningOutput,
    ReasoningTextContent, ToolSearchCall, WebSearchCall,
};
#[allow(unused_imports)]
use crate::items::{
    CompactionItemView, CustomToolCallView, FunctionToolCallView, McpCallView, McpListToolsView,
    OutputItemView, OutputMessageView, OutputTextContentView, ReasoningOutputView,
    ReasoningTextContentView, ToolSearchCallView, WebSearchCallView,
};
#[allow(unused_imports)]
use crate::json::{Json, JsonObject, JsonView};
use crate::payload::{IncompleteDetails, ResponsePayload, ResponseStatus, ResponseUsage};
#[allow(unused_imports)]
use crate::payload::{IncompleteDetailsView, ResponsePayloadView};
use crate::search::public_output_item;
use crate::tables::{Keys, Table};
use crate::text::{concat, decimal, is_blank, same_text, strip_prefix, trim};
use crate::tools::{ToolSearchExecution, ToolSearchStatus, ToolType};
use crate::wire::{read_readable, FromJson};

verus! {

/// The wire text of a response's status.
pub open spec fn response_status_text(status: ResponseStatus) -> Seq<char> {
    match status {
        ResponseStatus::InProgress => "in_progress"@,
        ResponseStatus::Completed => "completed"@,
        ResponseStatus::Incomplete => "incomplete"@,
        ResponseStatus::Error => "error"@,
    }
}

/// The status that a wire text says; in progress where it is another text.
pub open spec fn response_status_of(text: Seq<char>) -> ResponseStatus {
    if text == "completed"@ {
        ResponseStatus::Completed
    } else if text == "incomplete"@ {
        ResponseStatus::Incomplete
    } else if text == "failed"@ || text == "error"@ {
        ResponseStatus::Error
    } else {
        ResponseStatus::InProgress
    }
}

impl ResponseStatus {
    /// The wire text of this status.
    pub fn as_str(self) -> (text: &'static str)
        ensures
            text@ == response_status_text(self),
    {
        match self {
            ResponseStatus::InProgress => "in_progress",
            ResponseStatus::Completed => "completed",
            ResponseStatus::Incomplete => "incomplete",
            ResponseStatus::Error => "error",
        }
    }

    /// The status that a wire text says; in progress where it is another text.
    pub fn from_text(text: &str) -> (status: ResponseStatus)
        ensures
            status == response_status_of(text@),
    {
        if same_text(text, "completed") {
            ResponseStatus::Completed
        } else if same_text(text, "incomplete") {
            ResponseStatus::Incomplete
        } else if same_text(text, "failed") || same_text(text, "error") {
            ResponseStatus::Error
        } else {
            ResponseStatus::InProgress
        }
    }
}

/// A function call of the model as the client and the upstream server see it: the
/// item, its place, and the arguments gathered so far.
#[derive(Debug)]
pub struct AccumulatedFunctionCall {
    pub item: FunctionToolCall,
    pub output_index: u32,
    pub gathered: String,
}

/// The view of an [`AccumulatedFunctionCall`].
#[verifier::ext_equal]
pub struct AccumulatedFunctionCallView {
    pub item: FunctionToolCallView,
    pub output_index: u32,
    pub gathered: Seq<char>,
}

impl View for AccumulatedFunctionCall {
    type V = AccumulatedFunctionCallView;

    open spec fn view(&self) -> AccumulatedFunctionCallView {
        AccumulatedFunctionCallView {
            item: self.item@,
            output_index: self.output_index,
            gathered: self.gathered@,
        }
    }
}

/// The arguments of a call: those of the item where it has any, else those
/// gathered so far.
pub open spec fn call_arguments(call: AccumulatedFunctionCallView) -> Seq<char> {
    if call.item.arguments.len() == 0 {
        call.gathered
    } else {
        call.item.arguments
    }
}

impl AccumulatedFunctionCall {
    /// The arguments of the call.
    pub fn arguments(&self) -> (arguments: &str)
        ensures
            arguments@ == call_arguments(self@),
    {
        if self.item.arguments.as_str().is_empty() {
            self.gathered.as_str()
        } else {
            self.item.arguments.as_str()
        }
    }
}

/// The public tool-search call of a finished call of the function that stands for
/// tool search.
pub open spec fn search_call_of_function(call: FunctionToolCallView) -> Result<
    ToolSearchCallView,
    ToolErrorView,
> {
    if call.namespace is Some {
        Err(crate::error::invalid_search_call())
    } else {
        crate::search::output_item_of(
            call.id,
            call.call_id,
            crate::json::parsed_json(call.arguments),
        )
    }
}

fn search_call_from_function(call: &FunctionToolCall) -> (out: Result<ToolSearchCall, ToolError>)
    ensures
        crate::error::outcome(out) == search_call_of_function(call@),
{
    if call.namespace.is_some() {
        return Err(invalid_upstream_search_call());
    }
    public_output_item(call.id.as_str(), call.call_id.as_str(), call.arguments.as_str())
}

/// Whether the name is that of the function that stands for tool search.
pub open spec fn is_search_name(tool_types: Map<Seq<char>, ToolType>, name: Seq<char>) -> bool {
    tool_types.contains_key(name) && tool_types[name] == ToolType::ToolSearch
}

fn names_search(tool_types: &Table<String, ToolType>, name: &String) -> (yes: bool)
    ensures
        yes == is_search_name(tool_types@, name@),
{
    match tool_types.get(name) {
        Some(t) => *t == ToolType::ToolSearch,
        None => false,
    }
}

/// The view of an item that may be absent, or of an error.
pub open spec fn item_outcome(out: Result<Option<OutputItem>, ExecutorError>) -> Result<
    Option<OutputItemView>,
    ExecutorErrorView,
> {
    match out {
        Ok(o) => Ok(crate::data::opt_view(o)),
        Err(e) => Err(e@),
    }
}

/// What an item in flight ends as: what was gathered goes into the item; a search
/// that did not finish is dropped after a failure and is an error otherwise; a web
/// search that never came is dropped.
pub open spec fn ended(
    item: InFlightView,
    tool_types: Map<Seq<char>, ToolType>,
    discard: bool,
) -> Result<
    Option<OutputItemView>,
    ExecutorErrorView,
> {
    match item {
        InFlightView::Reasoning { item, text } => Ok(
            Some(
                OutputItemView::Reasoning(
                    ReasoningOutputView {
                        content: if text.len() == 0 {
                            item.content
                        } else {
                            item.content.push(ReasoningTextContentView { text })
                        },
                        ..item
                    },
                ),
            ),
        ),
        InFlightView::FunctionCall { item, arguments } => if is_search_name(tool_types, item.name)
            && item.status != MessageStatus::Completed && discard {
            Ok(None)
        } else {
            let done = FunctionToolCallView {
                arguments: if arguments.len() > 0 && item.arguments.len() == 0 {
                    arguments
                } else {
                    item.arguments
                },
                status: MessageStatus::Completed,
                ..item
            };
            if is_search_name(tool_types, item.name) {
                match search_call_of_function(done) {
                    Ok(call) => Ok(Some(OutputItemView::ToolSearchCall(call))),
                    Err(e) => Err(ExecutorErrorView::Tool(e)),
                }
            } else {
                Ok(Some(OutputItemView::FunctionCall(done)))
            }
        },
        InFlightView::Message { item, text } => Ok(
            Some(
                OutputItemView::Message(
                    OutputMessageView {
                        content: if text.len() == 0 {
                            item.content
                        } else {
                            item.content.push(
                                OutputTextContentView { text, annotations: Seq::empty() },
                            )
                        },
                        status: MessageStatus::Completed,
                        ..item
                    },
                ),
            ),
        ),
        InFlightView::CustomToolCall { item, input } => Ok(
            Some(
                OutputItemView::CustomToolCall(
                    CustomToolCallView {
                        input: if item.input.len() == 0 {
                            input
                        } else {
                            item.input
                        },
                        status: Some(MessageStatus::Completed),
                        ..item
                    },
                ),
            ),
        ),
        InFlightView::WebSearchCall { item } => Ok(
            match item {
                Some(call) => Some(OutputItemView::WebSearchCall(call)),
                None => None,
            },
        ),
        InFlightView::McpCall { item } => Ok(Some(OutputItemView::McpCall(item))),
        InFlightView::McpListTools { item } => Ok(Some(OutputItemView::McpListTools(item))),
        InFlightView::ToolSearchCall(item) => if item.status == ToolSearchStatus::Completed {
            Ok(Some(OutputItemView::ToolSearchCall(item)))
        } else if discard {
            Ok(None)
        } else {
            Err(ExecutorErrorView::Tool(crate::error::invalid_search_call()))
        },
        InFlightView::Compaction { item } => Ok(Some(OutputItemView::Compaction(item))),
    }
}

impl InFlight {
    /// What this item ends as.
    pub fn finalize(self, tool_types: &Table<String, ToolType>, discard: bool) -> (out: Result<
        Option<OutputItem>,
        ExecutorError,
    >)
        ensures
            item_outcome(out) == ended(self@, tool_types@, discard),
    {
        match self {
            InFlight::Reasoning { item, text } => {
                let mut item = item;
                if !text.as_str().is_empty() {
                    let step = ReasoningTextContent { text };
                    proof {
                        crate::data::views_push(item.content@, step);
                    }
                    item.content.push(step);
                }
                Ok(Some(OutputItem::Reasoning(item)))
            },
            InFlight::FunctionCall { item, arguments } => {
                let search = names_search(tool_types, &item.name);
                if search && item.status != MessageStatus::Completed && discard {
                    return Ok(None);
                }
                let mut item = item;
                if !arguments.as_str().is_empty() && item.arguments.as_str().is_empty() {
                    item.arguments = arguments;
                }
                item.status = MessageStatus::Completed;
                if search {
                    match search_call_from_function(&item) {
                        Ok(call) => Ok(Some(OutputItem::ToolSearchCall(call))),
                        Err(e) => Err(ExecutorError::Tool(e)),
                    }
                } else {
                    Ok(Some(OutputItem::FunctionCall(item)))
                }
            },
            InFlight::Message { item, text } => {
                let mut item = item;
                if !text.as_str().is_empty() {
                    let part = OutputTextContent { text, annotations: Vec::new() };
                    proof {
                        assert(part@.annotations =~= Seq::empty());
                        crate::data::views_push(item.content@, part);
                    }
                    item.content.push(part);
                }
                item.status = MessageStatus::Completed;
                Ok(Some(OutputItem::Message(item)))
            },
            InFlight::CustomToolCall { item, input } => {
                let mut item = item;
                if item.input.as_str().is_empty() {
                    item.input = input;
                }
                item.status = Some(MessageStatus::Completed);
                Ok(Some(OutputItem::CustomToolCall(item)))
            },
            InFlight::WebSearchCall { item } => match item {
                Some(call) => Ok(Some(OutputItem::WebSearchCall(call))),
                None => Ok(None),
            },
            InFlight::McpCall { item } => Ok(Some(OutputItem::McpCall(item))),
            InFlight::McpListTools { item } => Ok(Some(OutputItem::McpListTools(item))),
            InFlight::ToolSearchCall(item) => {
                if item.status == ToolSearchStatus::Completed {
                    Ok(Some(OutputItem::ToolSearchCall(item)))
                } else if discard {
                    Ok(None)
                } else {
                    Err(ExecutorError::Tool(invalid_upstream_search_call()))
                }
            },
            InFlight::Compaction { item } => Ok(Some(OutputItem::Compaction(item))),
        }
    }
}

/// Puts an item after all those whose place is not later.
pub open spec fn insert_stable(s: Seq<(u32, OutputItemView)>, x: (u32, OutputItemView)) -> Seq<
    (u32, OutputItemView),
>
    decreases s.len(),
{
    if s.len() > 0 && s.last().0 > x.0 {
        insert_stable(s.drop_last(), x).push(s.last())
    } else {
        s.push(x)
    }
}

/// The items in the order of their places; of two at one place the earlier first.
pub open spec fn by_place(s: Seq<(u32, OutputItemView)>) -> Seq<(u32, OutputItemView)>
    decreases s.len(),
{
    if s.len() == 0 {
        s
    } else {
        insert_stable(by_place(s.drop_last()), s.last())
    }
}

proof fn insert_stable_sorted(s: Seq<(u32, OutputItemView)>, x: (u32, OutputItemView))
    requires
        forall|i: int, j: int| 0 <= i < j < s.len() ==> (#[trigger] s[i]).0 <= (#[trigger] s[j]).0,
    ensures
        insert_stable(s, x).len() == s.len() + 1,
        insert_stable(s, x).to_multiset() == s.to_multiset().insert(x),
        forall|i: int, j: int|
            0 <= i < j < s.len() + 1 ==> (#[trigger] insert_stable(s, x)[i]).0 <= (
            #[trigger] insert_stable(s, x)[j]).0,
        forall|i: int|
            0 <= i < s.len() + 1 ==> (#[trigger] insert_stable(s, x)[i]).0 <= x.0 || (s.len() > 0
                && insert_stable(s, x)[i].0 <= s.last().0),
    decreases s.len(),
{
    broadcast use vstd::seq_lib::group_to_multiset_ensures;

    let out = insert_stable(s, x);
    if s.len() > 0 && s.last().0 > x.0 {
        let rest = s.drop_last();
        assert forall|i: int, j: int| 0 <= i < j < rest.len() implies (#[trigger] rest[i]).0 <= (
        #[trigger] rest[j]).0 by {
            assert(s[i].0 <= s[j].0);
        }
        insert_stable_sorted(rest, x);
        let inner = insert_stable(rest, x);
        assert(s =~= rest.push(s.last()));
        assert(out.to_multiset() =~= s.to_multiset().insert(x));
        assert forall|i: int, j: int| 0 <= i < j < out.len() implies (#[trigger] out[i]).0 <= (
        #[trigger] out[j]).0 by {
            if j == out.len() - 1 {
                assert(inner[i].0 <= x.0 || inner[i].0 <= rest.last().0);
                if rest.len() > 0 {
                    assert(s[rest.len() - 1].0 <= s[s.len() - 1].0);
                }
            } else {
                assert(inner[i].0 <= inner[j].0);
            }
        }
        assert forall|i: int| 0 <= i < out.len() implies (#[trigger] out[i]).0 <= x.0 || out[i].0
            <= s.last().0 by {
            if i < out.len() - 1 {
                assert(inner[i].0 <= x.0 || inner[i].0 <= rest.last().0);
                if rest.len() > 0 {
                    assert(s[rest.len() - 1].0 <= s[s.len() - 1].0);
                }
            }
        }
    } else {
        assert forall|i: int, j: int| 0 <= i < j < out.len() implies (#[trigger] out[i]).0 <= (
        #[trigger] out[j]).0 by {
            if j == out.len() - 1 && s.len() > 0 && i < s.len() - 1 {
                assert(s[i].0 <= s[s.len() - 1].0);
            } else if j < out.len() - 1 {
                assert(s[i].0 <= s[j].0);
            }
        }
        assert forall|i: int| 0 <= i < out.len() implies (#[trigger] out[i]).0 <= x.0 || (s.len() > 0
            && out[i].0 <= s.last().0) by {
            if i < s.len() - 1 {
                assert(s[i].0 <= s[s.len() - 1].0);
            }
        }
    }
}

/// Finished items come out in the order of their places, each exactly once.
pub proof fn by_place_sorts(s: Seq<(u32, OutputItemView)>)
    ensures
        by_place(s).to_multiset() == s.to_multiset(),
        forall|i: int, j: int|
            0 <= i < j < by_place(s).len() ==> (#[trigger] by_place(s)[i]).0 <= (
            #[trigger] by_place(s)[j]).0,
    decreases s.len(),
{
    broadcast use vstd::seq_lib::group_to_multiset_ensures;

    if s.len() > 0 {
        by_place_sorts(s.drop_last());
        insert_stable_sorted(by_place(s.drop_last()), s.last());
        assert(s =~= s.drop_last().push(s.last()));
    }
}

/// The views of finished items with their places.
pub open spec fn placed(s: Seq<(u32, OutputItem)>) -> Seq<(u32, OutputItemView)> {
    s.map_values(|e: (u32, OutputItem)| (e.0, e.1@))
}

fn insert_by_place(sorted: &mut Vec<(u32, OutputItem)>, item: (u32, OutputItem))
    ensures
        placed(final(sorted)@) == insert_stable(placed(old(sorted)@), (item.0, item.1@)),
{
    let ghost before = sorted@;
    let mut at: usize = sorted.len();
    let ghost x = (item.0, item.1@);
    proof {
        assert(before.take(at as int) =~= before);
        assert(before.skip(at as int) =~= Seq::empty());
        assert(placed(before.take(at as int)) =~= placed(before));
        assert(insert_stable(placed(before.take(at as int)), x) + placed(before.skip(at as int))
            =~= insert_stable(placed(before), x));
    }
    while at > 0 && sorted[at - 1].0 > item.0
        invariant
            at <= sorted@.len(),
            sorted@ == before,
            x == (item.0, item.1@),
            insert_stable(placed(before), x) == insert_stable(placed(before.take(at as int)), x)
                + placed(before.skip(at as int)),
        decreases at,
    {
        proof {
            let now = placed(before.take(at as int));
            assert(now.drop_last() =~= placed(before.take(at - 1)));
            assert(now.last() == (before[at - 1].0, before[at - 1].1@));
            assert(placed(before.skip(at - 1)) =~= seq![now.last()] + placed(before.skip(at as int)));
            assert(insert_stable(placed(before.take(at - 1)), x).push(now.last()) + placed(
                before.skip(at as int),
            ) =~= insert_stable(placed(before.take(at - 1)), x) + placed(before.skip(at - 1)));
        }
        at = at - 1;
    }
    proof {
        let now = placed(before.take(at as int));
        if at > 0 {
            assert(now.last() == (before[at - 1].0, before[at - 1].1@));
        }
        assert(insert_stable(now, x) == now.push(x));
        assert(placed(before.insert(at as int, item)) =~= now.push(x) + placed(before.skip(at as int)));
    }
    sorted.insert(at, item);
}

/// What is known of a response while it is produced.
pub struct ResponseAccumulator {
    pub response_id: String,
    pub conversation_id: Option<String>,
    pub output: Vec<OutputItem>,
    pub usage: Option<ResponseUsage>,
    pub status: ResponseStatus,
    pub incomplete_details: Option<IncompleteDetails>,
    pub error: Option<Json>,
    /// Items that are being streamed, by their keys, in insertion order.
    pub in_flight: InFlightItems,
    /// Finished items that wait to be put in the order of their places.
    pub completed: Vec<(u32, OutputItem)>,
    /// The request's tools by the names that the model sees.
    pub tool_types: Table<String, ToolType>,
    pub processing_error: Option<ExecutorError>,
}

/// The view of a [`ResponseAccumulator`].
#[verifier::ext_equal]
pub struct AccumulatorView {
    pub response_id: Seq<char>,
    pub conversation_id: Option<Seq<char>>,
    pub output: Seq<OutputItemView>,
    pub usage: Option<ResponseUsage>,
    pub status: ResponseStatus,
    pub incomplete_details: Option<IncompleteDetailsView>,
    pub error: Option<JsonView>,
    pub in_flight: Seq<(Seq<char>, InFlightEntryView)>,
    pub completed: Seq<(u32, OutputItemView)>,
    pub tool_types: Map<Seq<char>, ToolType>,
    pub processing_error: Option<ExecutorErrorView>,
}

impl View for ResponseAccumulator {
    type V = AccumulatorView;

    open spec fn view(&self) -> AccumulatorView {
        AccumulatorView {
            response_id: self.response_id@,
            conversation_id: crate::data::opt_view(self.conversation_id),
            output: crate::data::views(self.output@),
            usage: self.usage,
            status: self.status,
            incomplete_details: crate::data::opt_view(self.incomplete_details),
            error: crate::data::opt_view(self.error),
            in_flight: self.in_flight@,
            completed: placed(self.completed@),
            tool_types: self.tool_types@,
            processing_error: crate::data::opt_view(self.processing_error),
        }
    }
}

/// Nothing of a response is known yet but its identity.
pub open spec fn fresh_accumulator(
    response_id: Seq<char>,
    conversation_id: Option<Seq<char>>,
) -> AccumulatorView {
    AccumulatorView {
        response_id,
        conversation_id,
        output: Seq::empty(),
        usage: None,
        status: ResponseStatus::InProgress,
        incomplete_details: None,
        error: None,
        in_flight: Seq::empty(),
        completed: Seq::empty(),
        tool_types: Map::empty(),
        processing_error: None,
    }
}

/// Whether an unfinished search is dropped: after a failure or an interruption.
pub open spec fn discards(status: ResponseStatus) -> bool {
    status is Error || status is Incomplete
}

/// The state after the first `n` items in flight ended: each goes to the finished
/// ones, and the first error is kept.
pub open spec fn end_items(
    entries: Seq<InFlightEntryView>,
    a: AccumulatorView,
    n: int,
) -> AccumulatorView
    decreases n,
{
    if n <= 0 {
        a
    } else {
        let a1 = end_items(entries, a, n - 1);
        match ended(entries[n - 1].item, a.tool_types, discards(a.status)) {
            Ok(Some(item)) => AccumulatorView {
                completed: a1.completed.push((entries[n - 1].output_index, item)),
                ..a1
            },
            Ok(None) => a1,
            Err(e) => with_error(a1, e),
        }
    }
}

/// The state with an error, unless it has one.
pub open spec fn with_error(a: AccumulatorView, e: ExecutorErrorView) -> AccumulatorView {
    AccumulatorView {
        processing_error: match a.processing_error {
            Some(first) => Some(first),
            None => Some(e),
        },
        ..a
    }
}

/// The entries of the items in flight, in insertion order.
pub open spec fn entries_of(items: Seq<(Seq<char>, InFlightEntryView)>) -> Seq<InFlightEntryView> {
    items.map_values(|e: (Seq<char>, InFlightEntryView)| e.1)
}

/// The items without their places.
pub open spec fn unplaced(s: Seq<(u32, OutputItemView)>) -> Seq<OutputItemView> {
    s.map_values(|e: (u32, OutputItemView)| e.1)
}

/// The state after everything in flight ended: the finished items follow the
/// output in the order of their places.
pub open spec fn all_ended(a: AccumulatorView) -> AccumulatorView {
    let entries = entries_of(a.in_flight);
    let a1 = end_items(
        entries,
        AccumulatorView { in_flight: Seq::empty(), ..a },
        entries.len() as int,
    );
    AccumulatorView {
        output: a1.output + unplaced(by_place(a1.completed)),
        completed: Seq::empty(),
        ..a1
    }
}

proof fn end_items_keeps(entries: Seq<InFlightEntryView>, a: AccumulatorView, n: int)
    ensures
        end_items(entries, a, n).tool_types == a.tool_types,
        end_items(entries, a, n).status == a.status,
        end_items(entries, a, n).output == a.output,
        end_items(entries, a, n).in_flight == a.in_flight,
    decreases n,
{
    if n > 0 {
        end_items_keeps(entries, a, n - 1);
    }
}

/// The identity that an item has: the one given, or a fresh one under a prefix.
pub open spec fn id_or_fresh(item_id: Seq<char>, prefix: Seq<char>, fresh: Seq<char>) -> Seq<char> {
    if item_id.len() == 0 {
        prefix + fresh
    } else {
        item_id
    }
}

fn id_or(item_id: &str, prefix: &str, fresh: &str) -> (id: String)
    ensures
        id@ == id_or_fresh(item_id@, prefix@, fresh@),
{
    if item_id.is_empty() {
        concat(prefix, fresh)
    } else {
        item_id.to_owned()
    }
}

/// A text, or an empty one where there is none.
pub open spec fn or_empty(text: Option<Seq<char>>) -> Seq<char> {
    match text {
        Some(t) => t,
        None => Seq::empty(),
    }
}

fn text_or_empty(text: &Option<String>) -> (out: String)
    ensures
        out@ == or_empty(crate::data::opt_view(*text)),
{
    match text {
        Some(t) => t.clone(),
        None => String::new(),
    }
}

/// A native tool-search call that has begun: both identities are there, and the
/// client runs it.
pub open spec fn begun_search_call(
    item_id: Seq<char>,
    call_id: Option<Seq<char>>,
    execution: Option<Seq<char>>,
    arguments: Option<JsonView>,
) -> Result<ToolSearchCallView, ToolErrorView> {
    if crate::text::blank(item_id) || crate::text::blank(or_empty(call_id)) || execution != Some(
        "client"@,
    ) {
        Err(crate::error::invalid_search_call())
    } else {
        match crate::custom::non_null(arguments) {
            None => Ok(
                ToolSearchCallView {
                    id: item_id,
                    call_id: or_empty(call_id),
                    execution: ToolSearchExecution::Client,
                    arguments: Map::empty(),
                    status: ToolSearchStatus::InProgress,
                },
            ),
            Some(JsonView::Object(fields)) => Ok(
                ToolSearchCallView {
                    id: item_id,
                    call_id: or_empty(call_id),
                    execution: ToolSearchExecution::Client,
                    arguments: fields,
                    status: ToolSearchStatus::InProgress,
                },
            ),
            _ => Err(crate::error::invalid_search_call()),
        }
    }
}

fn begin_search_call(
    item_id: &str,
    call_id: &Option<String>,
    execution: &Option<String>,
    arguments: &Option<Json>,
) -> (out: Result<ToolSearchCall, ToolError>)
    ensures
        crate::error::outcome(out) == begun_search_call(
            item_id@,
            crate::data::opt_view(*call_id),
            crate::data::opt_view(*execution),
            crate::data::opt_view(*arguments),
        ),
{
    let call_id = text_or_empty(call_id);
    let client = match execution {
        Some(e) => same_text(e.as_str(), "client"),
        None => false,
    };
    if is_blank(item_id) || is_blank(call_id.as_str()) || !client {
        return Err(invalid_upstream_search_call());
    }
    let fields = match arguments {
        None => JsonObject::new(),
        Some(Json::Null) => JsonObject::new(),
        Some(Json::Object(fields)) => fields.copy(),
        Some(_) => {
            return Err(invalid_upstream_search_call());
        },
    };
    Ok(
        ToolSearchCall {
            id: item_id.to_owned(),
            call_id,
            execution: ToolSearchExecution::Client,
            arguments: fields,
            status: ToolSearchStatus::InProgress,
        },
    )
}

/// What an added item begins as. A web search without an identity is not tracked.
pub open spec fn begun(payload: EventPayloadView, fresh: Seq<char>) -> Result<
    Option<InFlightView>,
    ToolErrorView,
> {
    match payload {
        EventPayloadView::OutputItemAdded {
            item_id,
            item_type,
            output_index,
            name,
            namespace,
            call_id,
            execution,
            status,
            arguments,
        } => match item_type {
            SSEItemType::Reasoning => Ok(
                Some(
                    InFlightView::Reasoning {
                        item: ReasoningOutputView {
                            id: id_or_fresh(item_id, "rs_"@, fresh),
                            summary: Seq::empty(),
                            content: Seq::empty(),
                            encrypted_content: None,
                            status: None,
                        },
                        text: Seq::empty(),
                    },
                ),
            ),
            SSEItemType::FunctionCall => Ok(
                Some(
                    InFlightView::FunctionCall {
                        item: FunctionToolCallView {
                            id: id_or_fresh(item_id, "fc_"@, fresh),
                            call_id: or_empty(call_id),
                            name: or_empty(name),
                            namespace,
                            arguments: Seq::empty(),
                            status: MessageStatus::InProgress,
                        },
                        arguments: Seq::empty(),
                    },
                ),
            ),
            SSEItemType::CustomToolCall => Ok(
                Some(
                    InFlightView::CustomToolCall {
                        item: CustomToolCallView {
                            id: id_or_fresh(item_id, "ctc_"@, fresh),
                            status: Some(MessageStatus::InProgress),
                            call_id: or_empty(call_id),
                            name: or_empty(name),
                            input: Seq::empty(),
                        },
                        input: Seq::empty(),
                    },
                ),
            ),
            SSEItemType::Message => Ok(
                Some(
                    InFlightView::Message {
                        item: OutputMessageView {
                            id: id_or_fresh(item_id, "msg_"@, fresh),
                            role: "assistant"@,
                            status: MessageStatus::InProgress,
                            content: Seq::empty(),
                        },
                        text: Seq::empty(),
                    },
                ),
            ),
            SSEItemType::WebSearchCall => if item_id.len() == 0 {
                Ok(None)
            } else {
                Ok(Some(InFlightView::WebSearchCall { item: None }))
            },
            SSEItemType::Compaction => Ok(
                Some(
                    InFlightView::Compaction {
                        item: CompactionItemView {
                            id: if item_id.len() == 0 {
                                None
                            } else {
                                Some(item_id)
                            },
                            encrypted_content: Seq::empty(),
                        },
                    },
                ),
            ),
            SSEItemType::McpCall => Ok(
                Some(
                    InFlightView::McpCall {
                        item: McpCallView {
                            id: id_or_fresh(item_id, "mcp_"@, fresh),
                            server_label: Seq::empty(),
                            name: or_empty(name),
                            arguments: Seq::empty(),
                            status: Some(McpCallStatus::InProgress),
                            approval_request_id: None,
                            output: None,
                            error: None,
                        },
                    },
                ),
            ),
            SSEItemType::McpListTools => Ok(
                Some(
                    InFlightView::McpListTools {
                        item: McpListToolsView {
                            id: id_or_fresh(item_id, "mcpl_"@, fresh),
                            server_label: Seq::empty(),
                            tools: Seq::empty(),
                            error: None,
                        },
                    },
                ),
            ),
            SSEItemType::ToolSearchCall => match begun_search_call(
                item_id,
                call_id,
                execution,
                arguments,
            ) {
                Ok(call) => Ok(Some(InFlightView::ToolSearchCall(call))),
                Err(e) => Err(e),
            },
        },
        _ => Ok(None),
    }
}

/// The view of an item in flight that may be absent, or of an error.
pub open spec fn begun_outcome(out: Result<Option<InFlight>, ToolError>) -> Result<
    Option<InFlightView>,
    ToolErrorView,
> {
    match out {
        Ok(o) => Ok(crate::data::opt_view(o)),
        Err(e) => Err(e@),
    }
}

fn begin_item(payload: &EventPayload, fresh: &str) -> (out: Result<Option<InFlight>, ToolError>)
    ensures
        begun_outcome(out) == begun(payload@, fresh@),
{
    match payload {
        EventPayload::OutputItemAdded {
            item_id,
            item_type,
            output_index,
            name,
            namespace,
            call_id,
            execution,
            status,
            arguments,
        } => match item_type {
            SSEItemType::Reasoning => {
                let item = ReasoningOutput {
                    id: id_or(item_id.as_str(), "rs_", fresh),
                    summary: Vec::new(),
                    content: Vec::new(),
                    encrypted_content: None,
                    status: None,
                };
                proof {
                    assert(item@.summary =~= Seq::empty());
                    assert(item@.content =~= Seq::empty());
                }
                Ok(Some(InFlight::Reasoning { item, text: String::new() }))
            },
            SSEItemType::FunctionCall => {
                let item = FunctionToolCall {
                    id: id_or(item_id.as_str(), "fc_", fresh),
                    call_id: text_or_empty(call_id),
                    name: text_or_empty(name),
                    namespace: copy_opt(namespace),
                    arguments: String::new(),
                    status: MessageStatus::InProgress,
                };
                Ok(Some(InFlight::FunctionCall { item, arguments: String::new() }))
            },
            SSEItemType::CustomToolCall => {
                let item = CustomToolCall {
                    id: id_or(item_id.as_str(), "ctc_", fresh),
                    status: Some(MessageStatus::InProgress),
                    call_id: text_or_empty(call_id),
                    name: text_or_empty(name),
                    input: String::new(),
                };
                Ok(Some(InFlight::CustomToolCall { item, input: String::new() }))
            },
            SSEItemType::Message => {
                let item = OutputMessage {
                    id: id_or(item_id.as_str(), "msg_", fresh),
                    role: "assistant".to_owned(),
                    status: MessageStatus::InProgress,
                    content: Vec::new(),
                };
                proof {
                    assert(item@.content =~= Seq::empty());
                }
                Ok(Some(InFlight::Message { item, text: String::new() }))
            },
            SSEItemType::WebSearchCall => {
                if item_id.as_str().is_empty() {
                    Ok(None)
                } else {
                    Ok(Some(InFlight::WebSearchCall { item: None }))
                }
            },
            SSEItemType::Compaction => {
                let id = if item_id.as_str().is_empty() {
                    None
                } else {
                    Some(item_id.clone())
                };
                let item = CompactionItem { id, encrypted_content: String::new() };
                Ok(Some(InFlight::Compaction { item }))
            },
            SSEItemType::McpCall => {
                let item = McpCall {
                    id: id_or(item_id.as_str(), "mcp_", fresh),
                    server_label: String::new(),
                    name: text_or_empty(name),
                    arguments: String::new(),
                    status: Some(McpCallStatus::InProgress),
                    approval_request_id: None,
                    output: None,
                    error: None,
                };
                Ok(Some(InFlight::McpCall { item }))
            },
            SSEItemType::McpListTools => {
                let item = McpListTools {
                    id: id_or(item_id.as_str(), "mcpl_", fresh),
                    server_label: String::new(),
                    tools: Vec::new(),
                    error: None,
                };
                proof {
                    assert(item@.tools =~= Seq::empty());
                }
                Ok(Some(InFlight::McpListTools { item }))
            },
            SSEItemType::ToolSearchCall => match begin_search_call(
                item_id.as_str(),
                call_id,
                execution,
                arguments,
            ) {
                Ok(call) => Ok(Some(InFlight::ToolSearchCall(call))),
                Err(e) => Err(e),
            },
        },
        _ => Ok(None),
    }
}

/// A text with `k` underscores behind it.
pub open spec fn underscored(base: Seq<char>, k: nat) -> Seq<char>
    decreases k,
{
    if k == 0 {
        base
    } else {
        underscored(base, (k - 1) as nat).push('_')
    }
}

/// Whether a key is taken.
pub open spec fn key_taken(items: Seq<(Seq<char>, InFlightEntryView)>, key: Seq<char>) -> bool {
    crate::in_flight::key_place(items, key, 0) is Some
}

/// Whether `k` is the least number of underscores that makes a key free.
pub open spec fn least_free(
    items: Seq<(Seq<char>, InFlightEntryView)>,
    base: Seq<char>,
    k: nat,
) -> bool {
    !key_taken(items, underscored(base, k)) && forall|j: nat|
        j < k ==> key_taken(items, #[trigger] underscored(base, j))
}

/// The key with the fewest underscores behind the base that is not taken.
pub open spec fn free_key(
    items: Seq<(Seq<char>, InFlightEntryView)>,
    base: Seq<char>,
) -> Seq<char> {
    underscored(base, choose|k: nat| least_free(items, base, k))
}

proof fn underscored_len(base: Seq<char>, k: nat)
    ensures
        underscored(base, k).len() == base.len() + k,
    decreases k,
{
    if k > 0 {
        underscored_len(base, (k - 1) as nat);
    }
}

/// As many keys as are taken in a row, so many there are.
proof fn taken_run(keys: Seq<Seq<char>>, base: Seq<char>, n: nat)
    requires
        forall|j: nat| j < n ==> keys.contains(#[trigger] underscored(base, j)),
    ensures
        keys.len() >= n,
    decreases n,
{
    if n > 0 {
        let last = underscored(base, (n - 1) as nat);
        assert(keys.contains(last));
        let at = choose|i: int| 0 <= i < keys.len() && keys[i] == last;
        let rest = keys.remove(at);
        assert forall|j: nat| j < n - 1 implies rest.contains(#[trigger] underscored(base, j)) by {
            let key = underscored(base, j);
            assert(keys.contains(key));
            let i = choose|i: int| 0 <= i < keys.len() && keys[i] == key;
            underscored_len(base, j);
            underscored_len(base, (n - 1) as nat);
            if i < at {
                assert(rest[i] == key);
            } else {
                assert(rest[i - 1] == key);
            }
        }
        taken_run(rest, base, (n - 1) as nat);
    }
}

spec fn keys_of(items: Seq<(Seq<char>, InFlightEntryView)>) -> Seq<Seq<char>> {
    items.map_values(|e: (Seq<char>, InFlightEntryView)| e.0)
}

proof fn taken_is_key(items: Seq<(Seq<char>, InFlightEntryView)>, key: Seq<char>, i: int)
    requires
        0 <= i,
        crate::in_flight::key_place(items, key, i) is Some,
    ensures
        keys_of(items).contains(key),
    decreases items.len() - i,
{
    if items[i].0 == key {
        assert(keys_of(items)[i] == key);
    } else {
        taken_is_key(items, key, i + 1);
    }
}

proof fn least_free_unique(items: Seq<(Seq<char>, InFlightEntryView)>, base: Seq<char>, a: nat, b: nat)
    requires
        least_free(items, base, a),
        least_free(items, base, b),
    ensures
        a == b,
{
    if a < b {
        assert(key_taken(items, underscored(base, a)));
    }
    if b < a {
        assert(key_taken(items, underscored(base, b)));
    }
}

/// The key under which an added item is tracked: its identity, but a place-based
/// one for a function call whose identity is empty or taken.
pub open spec fn tracking_key(
    items: Seq<(Seq<char>, InFlightEntryView)>,
    item: InFlightView,
    item_id: Seq<char>,
    output_index: u32,
) -> Seq<char> {
    if item is FunctionCall && (item_id.len() == 0 || key_taken(items, item_id)) {
        free_key(items, "__output_index_"@ + crate::text::decimal_text(output_index as nat))
    } else {
        item_id
    }
}

/// The key that a function call gets for its place is not taken, so no call that is
/// tracked already is lost.
pub proof fn free_key_is_free(items: Seq<(Seq<char>, InFlightEntryView)>, base: Seq<char>)
    ensures
        !key_taken(items, free_key(items, base)),
{
    free_exists(items, base, 0);
}

proof fn free_exists(items: Seq<(Seq<char>, InFlightEntryView)>, base: Seq<char>, k: nat)
    requires
        k <= items.len(),
        forall|j: nat| j < k ==> key_taken(items, #[trigger] underscored(base, j)),
    ensures
        exists|k: nat| least_free(items, base, k),
    decreases items.len() - k,
{
    if !key_taken(items, underscored(base, k)) {
        assert(least_free(items, base, k));
    } else {
        assert forall|j: nat| j < k + 1 implies keys_of(items).contains(#[trigger] underscored(base, j)) by {
            taken_is_key(items, underscored(base, j), 0);
        }
        taken_run(keys_of(items), base, k + 1);
        free_exists(items, base, k + 1);
    }
}

fn find_free_key(items: &InFlightItems, base: String) -> (key: String)
    ensures
        key@ == free_key(items@, base@),
{
    let mut key = base.clone();
    let ghost mut k: nat = 0;
    while items.position(key.as_str()).is_some()
        invariant
            key@ == underscored(base@, k),
            k <= items@.len(),
            forall|j: nat| j < k ==> key_taken(items@, #[trigger] underscored(base@, j)),
        decreases items@.len() - k,
    {
        proof {
            assert forall|j: nat| j < k + 1 implies keys_of(items@).contains(
                #[trigger] underscored(base@, j),
            ) by {
                taken_is_key(items@, underscored(base@, j), 0);
            }
            taken_run(keys_of(items@), base@, k + 1);
            k = k + 1;
        }
        key.push('_');
    }
    proof {
        assert(least_free(items@, base@, k));
        let chosen = choose|k: nat| least_free(items@, base@, k);
        least_free_unique(items@, base@, k, chosen);
    }
    key
}

/// The state after an item was added.
pub open spec fn item_added(
    a: AccumulatorView,
    payload: EventPayloadView,
    fresh: Seq<char>,
) -> AccumulatorView {
    match payload {
        EventPayloadView::OutputItemAdded {
            item_id,
            item_type,
            output_index,
            name,
            namespace,
            call_id,
            execution,
            status,
            arguments,
        } => match begun(payload, fresh) {
            Ok(Some(item)) => AccumulatorView {
                in_flight: crate::in_flight::with_entry(
                    a.in_flight,
                    tracking_key(a.in_flight, item, item_id, output_index),
                    InFlightEntryView { output_index, item },
                ),
                ..a
            },
            Ok(None) => a,
            Err(e) => with_error(a, ExecutorErrorView::Tool(e)),
        },
        _ => a,
    }
}

/// Whether an item in flight is a call of the given kind.
pub open spec fn is_call_of(item: InFlightView, item_type: SSEItemType) -> bool {
    match item_type {
        SSEItemType::FunctionCall => item is FunctionCall,
        SSEItemType::CustomToolCall => item is CustomToolCall,
        SSEItemType::WebSearchCall => item is WebSearchCall,
        SSEItemType::McpCall => item is McpCall,
        SSEItemType::McpListTools => item is McpListTools,
        SSEItemType::ToolSearchCall => item is ToolSearchCall,
        SSEItemType::Compaction => item is Compaction,
        SSEItemType::Message | SSEItemType::Reasoning => false,
    }
}

/// Whether an item in flight is a call of the given kind.
pub fn in_flight_matches_call_type(item: &InFlight, item_type: SSEItemType) -> (yes: bool)
    ensures
        yes == is_call_of(item@, item_type),
{
    match (item, item_type) {
        (InFlight::FunctionCall { .. }, SSEItemType::FunctionCall) => true,
        (InFlight::CustomToolCall { .. }, SSEItemType::CustomToolCall) => true,
        (InFlight::WebSearchCall { .. }, SSEItemType::WebSearchCall) => true,
        (InFlight::McpCall { .. }, SSEItemType::McpCall) => true,
        (InFlight::McpListTools { .. }, SSEItemType::McpListTools) => true,
        (InFlight::ToolSearchCall(_), SSEItemType::ToolSearchCall) => true,
        (InFlight::Compaction { .. }, SSEItemType::Compaction) => true,
        _ => false,
    }
}

/// The first call of a kind at an output place, from `i` on.
pub open spec fn call_at_place(
    items: Seq<(Seq<char>, InFlightEntryView)>,
    item_type: SSEItemType,
    output_index: u32,
    i: int,
) -> Option<int>
    decreases items.len() - i,
{
    if i < 0 || i >= items.len() {
        None
    } else if items[i].1.output_index == output_index && is_call_of(items[i].1.item, item_type) {
        Some(i)
    } else {
        call_at_place(items, item_type, output_index, i + 1)
    }
}

/// The call that an event speaks of: the one of its identity where kind and place
/// agree, else the first of that kind at the place.
pub open spec fn call_for(
    items: Seq<(Seq<char>, InFlightEntryView)>,
    item_id: Seq<char>,
    item_type: SSEItemType,
    output_index: u32,
) -> Option<int> {
    match crate::in_flight::key_place(items, item_id, 0) {
        Some(i) if items[i].1.output_index == output_index && is_call_of(
            items[i].1.item,
            item_type,
        ) =>
        Some(i),
        _ => call_at_place(items, item_type, output_index, 0),
    }
}

/// The place of the call that an event speaks of.
pub fn in_flight_call_place(
    items: &InFlightItems,
    item_id: &str,
    item_type: SSEItemType,
    output_index: u32,
) -> (at: Option<usize>)
    ensures
        match at {
            Some(i) => call_for(items@, item_id@, item_type, output_index) == Some(i as int) && i
                < items@.len(),
            None => call_for(items@, item_id@, item_type, output_index) is None,
        },
{
    if let Some(i) = items.position(item_id) {
        let entry = items.at(i);
        if entry.output_index == output_index && in_flight_matches_call_type(
            &entry.item,
            item_type,
        ) {
            return Some(i);
        }
    }
    let mut i: usize = 0;
    let n: usize = items.len();
    while i < n
        invariant
            i <= n == items@.len(),
            call_for(items@, item_id@, item_type, output_index) == call_at_place(
                items@,
                item_type,
                output_index,
                i as int,
            ),
        decreases n - i,
    {
        let entry = items.at(i);
        if entry.output_index == output_index && in_flight_matches_call_type(
            &entry.item,
            item_type,
        ) {
            return Some(i);
        }
        i = i + 1;
    }
    None
}

/// A text that replaces another where it says anything.
pub open spec fn replaced(old_text: Seq<char>, new_text: Seq<char>) -> Seq<char> {
    if new_text.len() == 0 {
        old_text
    } else {
        new_text
    }
}

fn replace_text(text: String, new_text: &str) -> (out: String)
    ensures
        out@ == replaced(text@, new_text@),
{
    if new_text.is_empty() {
        text
    } else {
        new_text.to_owned()
    }
}

/// The arguments after an event that closes them: the event's where it has any,
/// else those that are there, else those gathered.
pub open spec fn closed_text(own: Seq<char>, gathered: Seq<char>, told: Seq<char>) -> Seq<char> {
    if told.len() > 0 {
        told
    } else if own.len() > 0 {
        own
    } else {
        gathered
    }
}

fn close_text(own: String, gathered: &String, told: &str) -> (out: String)
    ensures
        out@ == closed_text(own@, gathered@, told@),
{
    if !told.is_empty() {
        told.to_owned()
    } else if !own.as_str().is_empty() {
        own
    } else {
        gathered.clone()
    }
}

/// A function call after its arguments closed.
pub open spec fn arguments_closed(
    item: FunctionToolCallView,
    gathered: Seq<char>,
    arguments: Seq<char>,
    call_id: Option<Seq<char>>,
    name: Seq<char>,
) -> FunctionToolCallView {
    FunctionToolCallView {
        call_id: replaced(item.call_id, or_empty(call_id)),
        name: replaced(item.name, name),
        arguments: closed_text(item.arguments, gathered, arguments),
        ..item
    }
}

/// A function call after its item is done.
pub open spec fn function_done(
    item: FunctionToolCallView,
    gathered: Seq<char>,
    fields: Map<Seq<char>, JsonView>,
) -> FunctionToolCallView {
    FunctionToolCallView {
        id: replaced(item.id, crate::wire::text_or(fields, "id"@, Seq::empty())),
        call_id: replaced(item.call_id, crate::wire::text_or(fields, "call_id"@, Seq::empty())),
        name: replaced(item.name, crate::wire::text_or(fields, "name"@, Seq::empty())),
        namespace: match crate::json::text_field(fields, "namespace"@) {
            Some(n) => Some(n),
            None => item.namespace,
        },
        arguments: closed_text(
            item.arguments,
            gathered,
            crate::wire::text_or(fields, "arguments"@, Seq::empty()),
        ),
        status: MessageStatus::Completed,
    }
}

fn finish_function(
    item: FunctionToolCall,
    gathered: &String,
    fields: &JsonObject,
) -> (out: FunctionToolCall)
    ensures
        out@ == function_done(item@, gathered@, fields@),
{
    let id = crate::wire_items::read_text_or_empty(fields, "id");
    let call_id = crate::wire_items::read_text_or_empty(fields, "call_id");
    let name = crate::wire_items::read_text_or_empty(fields, "name");
    let arguments = crate::wire_items::read_text_or_empty(fields, "arguments");
    let namespace = match fields.get_str("namespace") {
        Some(n) => Some(n.to_owned()),
        None => item.namespace,
    };
    FunctionToolCall {
        id: replace_text(item.id, id.as_str()),
        call_id: replace_text(item.call_id, call_id.as_str()),
        name: replace_text(item.name, name.as_str()),
        namespace,
        arguments: close_text(item.arguments, gathered, arguments.as_str()),
        status: MessageStatus::Completed,
    }
}

/// A custom call after its item is done.
pub open spec fn custom_done(
    item: CustomToolCallView,
    gathered: Seq<char>,
    fields: Map<Seq<char>, JsonView>,
) -> CustomToolCallView {
    CustomToolCallView {
        id: replaced(item.id, crate::wire::text_or(fields, "id"@, Seq::empty())),
        call_id: replaced(item.call_id, crate::wire::text_or(fields, "call_id"@, Seq::empty())),
        name: replaced(item.name, crate::wire::text_or(fields, "name"@, Seq::empty())),
        input: closed_text(
            item.input,
            gathered,
            crate::wire::text_or(fields, "input"@, Seq::empty()),
        ),
        status: Some(MessageStatus::Completed),
    }
}

fn finish_custom(
    item: CustomToolCall,
    gathered: &String,
    fields: &JsonObject,
) -> (out: CustomToolCall)
    ensures
        out@ == custom_done(item@, gathered@, fields@),
{
    let id = crate::wire_items::read_text_or_empty(fields, "id");
    let call_id = crate::wire_items::read_text_or_empty(fields, "call_id");
    let name = crate::wire_items::read_text_or_empty(fields, "name");
    let input = crate::wire_items::read_text_or_empty(fields, "input");
    CustomToolCall {
        id: replace_text(item.id, id.as_str()),
        call_id: replace_text(item.call_id, call_id.as_str()),
        name: replace_text(item.name, name.as_str()),
        input: close_text(item.input, gathered, input.as_str()),
        status: Some(MessageStatus::Completed),
    }
}

/// The fields of a value; none where it is no object.
pub open spec fn fields_of(value: JsonView) -> Map<Seq<char>, JsonView> {
    match value {
        JsonView::Object(fields) => fields,
        _ => Map::empty(),
    }
}

fn fields_or_empty(value: &Json) -> (fields: JsonObject)
    ensures
        fields@ == fields_of(value@),
{
    match value {
        Json::Object(fields) => fields.copy(),
        _ => JsonObject::new(),
    }
}

/// What a call in flight becomes when its item is done. A web search takes its
/// identity from its key, or a fresh one, where it has none.
pub open spec fn call_done(
    key: Seq<char>,
    item: InFlightView,
    raw: JsonView,
    tool_types: Map<Seq<char>, ToolType>,
    fresh: Seq<char>,
) -> Result<InFlightView, ToolErrorView> {
    let fields = fields_of(raw);
    match item {
        InFlightView::FunctionCall { item, arguments } => {
            let done = function_done(item, arguments, fields);
            let told = crate::json::text_field(fields, "name"@);
            if is_search_name(tool_types, item.name) || (told matches Some(name) && is_search_name(
                tool_types,
                name,
            )) {
                match search_call_of_function(done) {
                    Ok(call) => Ok(InFlightView::ToolSearchCall(call)),
                    Err(e) => Err(e),
                }
            } else {
                Ok(InFlightView::FunctionCall { item: done, arguments })
            }
        },
        InFlightView::CustomToolCall { item, input } => Ok(
            InFlightView::CustomToolCall { item: custom_done(item, input, fields), input },
        ),
        InFlightView::McpCall { item } => Ok(
            InFlightView::McpCall {
                item: match crate::wire_items::mcp_call_of(fields) {
                    Some(done) => McpCallView { id: replaced(item.id, done.id), ..done },
                    None => item,
                },
            },
        ),
        InFlightView::McpListTools { item } => Ok(
            InFlightView::McpListTools {
                item: match crate::wire_items::mcp_list_of(fields) {
                    Some(done) => McpListToolsView { id: replaced(item.id, done.id), ..done },
                    None => item,
                },
            },
        ),
        InFlightView::ToolSearchCall(item) => Ok(
            InFlightView::ToolSearchCall(
                match crate::wire_items::search_call_of(fields) {
                    Some(done) => ToolSearchCallView { id: replaced(item.id, done.id), ..done },
                    None => item,
                },
            ),
        ),
        InFlightView::Compaction { item } => Ok(
            InFlightView::Compaction {
                item: match crate::wire_items::compaction_of(fields) {
                    Some(done) => CompactionItemView {
                        id: match done.id {
                            Some(id) => Some(id),
                            None => item.id,
                        },
                        ..done
                    },
                    None => item,
                },
            },
        ),
        InFlightView::WebSearchCall { item } => match <OutputItem as FromJson>::of_json(raw) {
            Some(OutputItemView::WebSearchCall(done)) => Ok(
                InFlightView::WebSearchCall {
                    item: Some(
                        WebSearchCallView {
                            id: if done.id.len() > 0 {
                                done.id
                            } else if key.len() > 0 {
                                key
                            } else {
                                "ws_"@ + fresh
                            },
                            ..done
                        },
                    ),
                },
            ),
            _ => Ok(InFlightView::WebSearchCall { item }),
        },
        other => Ok(other),
    }
}

fn finish_call(
    key: &str,
    item: InFlight,
    raw: &Json,
    tool_types: &Table<String, ToolType>,
    fresh: &str,
) -> (out: Result<InFlight, ToolError>)
    ensures
        crate::error::outcome(out) == call_done(key@, item@, raw@, tool_types@, fresh@),
{
    let fields = fields_or_empty(raw);
    match item {
        InFlight::FunctionCall { item, arguments } => {
            let told = match fields.get_str("name") {
                Some(name) => names_search(tool_types, &name.to_owned()),
                None => false,
            };
            let search = told || names_search(tool_types, &item.name);
            let done = finish_function(item, &arguments, &fields);
            if search {
                match search_call_from_function(&done) {
                    Ok(call) => Ok(InFlight::ToolSearchCall(call)),
                    Err(e) => Err(e),
                }
            } else {
                Ok(InFlight::FunctionCall { item: done, arguments })
            }
        },
        InFlight::CustomToolCall { item, input } => {
            let item = finish_custom(item, &input, &fields);
            Ok(InFlight::CustomToolCall { item, input })
        },
        InFlight::McpCall { item } => Ok(
            InFlight::McpCall {
                item: match crate::wire_items::read_mcp_call(&fields) {
                    Some(done) => {
                        let mut done = done;
                        done.id = replace_text(item.id, done.id.as_str());
                        done
                    },
                    None => item,
                },
            },
        ),
        InFlight::McpListTools { item } => Ok(
            InFlight::McpListTools {
                item: match crate::wire_items::read_mcp_list(&fields) {
                    Some(done) => {
                        let mut done = done;
                        done.id = replace_text(item.id, done.id.as_str());
                        done
                    },
                    None => item,
                },
            },
        ),
        InFlight::ToolSearchCall(item) => Ok(
            InFlight::ToolSearchCall(
                match crate::wire_items::read_search_call(&fields) {
                    Some(done) => {
                        let mut done = done;
                        done.id = replace_text(item.id, done.id.as_str());
                        done
                    },
                    None => item,
                },
            ),
        ),
        InFlight::Compaction { item } => Ok(
            InFlight::Compaction {
                item: match crate::wire_items::read_compaction(&fields) {
                    Some(done) => {
                        let mut done = done;
                        if done.id.is_none() {
                            done.id = item.id;
                        }
                        done
                    },
                    None => item,
                },
            },
        ),
        InFlight::WebSearchCall { item } => match OutputItem::from_json(raw) {
            Some(OutputItem::WebSearchCall(done)) => {
                let mut done = done;
                if done.id.as_str().is_empty() {
                    if key.is_empty() {
                        done.id = concat("ws_", fresh);
                    } else {
                        done.id = key.to_owned();
                    }
                }
                Ok(InFlight::WebSearchCall { item: Some(done) })
            },
            _ => Ok(InFlight::WebSearchCall { item }),
        },
        other => Ok(other),
    }
}

/// An output item with the function that stands for tool search made public. A
/// search that is not finished is refused.
pub open spec fn normalized(item: OutputItemView, tool_types: Map<Seq<char>, ToolType>) -> Result<
    OutputItemView,
    ToolErrorView,
> {
    match item {
        OutputItemView::FunctionCall(call) if is_search_name(tool_types, call.name) =>
        match search_call_of_function(call) {
            Ok(call) => Ok(OutputItemView::ToolSearchCall(call)),
            Err(e) => Err(e),
        },
        OutputItemView::ToolSearchCall(call) if call.status != ToolSearchStatus::Completed => Err(
            crate::error::invalid_search_call(),
        ),
        item => Ok(item),
    }
}

/// An output item with the function that stands for tool search made public.
pub fn normalize_output_item(
    item: OutputItem,
    tool_types: &Table<String, ToolType>,
) -> (out: Result<
    OutputItem,
    ToolError,
>)
    ensures
        crate::error::outcome(out) == normalized(item@, tool_types@),
{
    match item {
        OutputItem::FunctionCall(call) => {
            if names_search(tool_types, &call.name) {
                match search_call_from_function(&call) {
                    Ok(call) => Ok(OutputItem::ToolSearchCall(call)),
                    Err(e) => Err(e),
                }
            } else {
                Ok(OutputItem::FunctionCall(call))
            }
        },
        OutputItem::ToolSearchCall(call) => {
            if call.status != ToolSearchStatus::Completed {
                Err(invalid_upstream_search_call())
            } else {
                Ok(OutputItem::ToolSearchCall(call))
            }
        },
        item => Ok(item),
    }
}

/// The state after an item is done that was not tracked: calls, lists and
/// compactions are finished as they are, others are not taken.
pub open spec fn untracked_done(
    a: AccumulatorView,
    done: Option<OutputItemView>,
    output_index: u32,
    fresh: Seq<char>,
) -> AccumulatorView {
    match done {
        None => a,
        Some(item) => match normalized(item, a.tool_types) {
            Err(e) => with_error(a, ExecutorErrorView::Tool(e)),
            Ok(OutputItemView::WebSearchCall(call)) => AccumulatorView {
                completed: a.completed.push(
                    (
                        output_index,
                        OutputItemView::WebSearchCall(
                            WebSearchCallView { id: id_or_fresh(call.id, "ws_"@, fresh), ..call },
                        ),
                    ),
                ),
                ..a
            },
            Ok(item) => if item is Message || item is Reasoning || item is McpToolCall {
                a
            } else {
                AccumulatorView { completed: a.completed.push((output_index, item)), ..a }
            },
        },
    }
}

/// The state after an item is done. A call in flight stays in its place; where the
/// upstream server sent a malformed search, the call is done as a function call.
pub open spec fn item_done(
    a: AccumulatorView,
    payload: EventPayloadView,
    fresh: Seq<char>,
) -> AccumulatorView {
    match payload {
        EventPayloadView::OutputItemDone {
            item_id,
            item_type,
            output_index,
            item,
        } => match call_for(
            a.in_flight,
            item_id,
            item_type,
            output_index,
        ) {
            Some(i) => match call_done(
                a.in_flight[i].0,
                a.in_flight[i].1.item,
                item,
                a.tool_types,
                fresh,
            ) {
                Ok(done) => AccumulatorView {
                    in_flight: crate::in_flight::with_item(a.in_flight, i, done),
                    ..a
                },
                Err(e) => with_error(
                    AccumulatorView {
                        in_flight: crate::in_flight::with_item(
                            a.in_flight,
                            i,
                            after_refusal(a.in_flight[i].1.item, item),
                        ),
                        ..a
                    },
                    ExecutorErrorView::Tool(e),
                ),
            },
            None => untracked_done(a, <OutputItem as FromJson>::of_json(item), output_index, fresh),
        },
        _ => a,
    }
}

/// What a function call is after its item is done and it was refused as a search.
pub open spec fn after_refusal(item: InFlightView, raw: JsonView) -> InFlightView {
    match item {
        InFlightView::FunctionCall { item, arguments } => InFlightView::FunctionCall {
            item: function_done(item, arguments, fields_of(raw)),
            arguments,
        },
        other => other,
    }
}

/// Reasoning after one of its texts closed.
pub open spec fn reasoning_closed(
    item: ReasoningOutputView,
    gathered: Seq<char>,
    text: Seq<char>,
) -> InFlightView {
    let said = replaced(gathered, text);
    InFlightView::Reasoning {
        item: ReasoningOutputView {
            content: if said.len() == 0 {
                item.content
            } else {
                item.content.push(ReasoningTextContentView { text: said })
            },
            ..item
        },
        text: Seq::empty(),
    }
}

/// The state with the item at a place changed, where there is a place.
pub open spec fn with_item_at(
    a: AccumulatorView,
    at: Option<int>,
    item: InFlightView,
) -> AccumulatorView {
    match at {
        Some(i) => AccumulatorView {
            in_flight: crate::in_flight::with_item(a.in_flight, i, item),
            ..a
        },
        None => a,
    }
}

/// The state after a response ended with a status.
pub open spec fn response_finished(
    a: AccumulatorView,
    status: ResponseStatus,
    usage: Option<ResponseUsage>,
) -> AccumulatorView {
    AccumulatorView { usage, ..all_ended(AccumulatorView { status, ..a }) }
}

/// The state after a piece of reasoning arrived.
pub open spec fn reasoning_added(
    a: AccumulatorView,
    item_id: Seq<char>,
    delta: Seq<char>,
) -> AccumulatorView {
    let at = crate::in_flight::key_place(a.in_flight, item_id, 0);
    match at {
        Some(i) => match a.in_flight[i].1.item {
            InFlightView::Reasoning { item, text } => with_item_at(
                a,
                at,
                InFlightView::Reasoning { item, text: text + delta },
            ),
            _ => a,
        },
        None => a,
    }
}

/// The state after the reasoning of an item was told whole.
pub open spec fn reasoning_ended(
    a: AccumulatorView,
    item_id: Seq<char>,
    told: Seq<char>,
) -> AccumulatorView {
    let at = crate::in_flight::key_place(a.in_flight, item_id, 0);
    match at {
        Some(i) => match a.in_flight[i].1.item {
            InFlightView::Reasoning { item, text } => with_item_at(
                a,
                at,
                reasoning_closed(item, text, told),
            ),
            _ => a,
        },
        None => a,
    }
}

/// The state after a piece of a call's arguments arrived.
pub open spec fn arguments_added(
    a: AccumulatorView,
    item_id: Seq<char>,
    output_index: u32,
    delta: Seq<char>,
) -> AccumulatorView {
    let at = call_for(a.in_flight, item_id, SSEItemType::FunctionCall, output_index);
    match at {
        Some(i) => match a.in_flight[i].1.item {
            InFlightView::FunctionCall { item, arguments } => with_item_at(
                a,
                at,
                InFlightView::FunctionCall { item, arguments: arguments + delta },
            ),
            _ => a,
        },
        None => a,
    }
}

/// The state after the arguments of a call were told whole.
pub open spec fn arguments_ended(
    a: AccumulatorView,
    item_id: Seq<char>,
    output_index: u32,
    call_id: Option<Seq<char>>,
    name: Seq<char>,
    told: Seq<char>,
) -> AccumulatorView {
    let at = call_for(a.in_flight, item_id, SSEItemType::FunctionCall, output_index);
    match at {
        Some(i) => match a.in_flight[i].1.item {
            InFlightView::FunctionCall { item, arguments } => with_item_at(
                a,
                at,
                InFlightView::FunctionCall {
                    item: arguments_closed(item, arguments, told, call_id, name),
                    arguments,
                },
            ),
            _ => a,
        },
        None => a,
    }
}

/// The state after a piece of a custom call's input arrived.
pub open spec fn input_added(
    a: AccumulatorView,
    item_id: Seq<char>,
    delta: Seq<char>,
) -> AccumulatorView {
    let at = crate::in_flight::key_place(a.in_flight, item_id, 0);
    match at {
        Some(i) => match a.in_flight[i].1.item {
            InFlightView::CustomToolCall { item, input } => with_item_at(
                a,
                at,
                InFlightView::CustomToolCall { item, input: input + delta },
            ),
            _ => a,
        },
        None => a,
    }
}

/// The state after the input of a custom call was told whole.
pub open spec fn input_ended(
    a: AccumulatorView,
    item_id: Seq<char>,
    told: Seq<char>,
) -> AccumulatorView {
    let at = crate::in_flight::key_place(a.in_flight, item_id, 0);
    match at {
        Some(i) => match a.in_flight[i].1.item {
            InFlightView::CustomToolCall { item, input } => with_item_at(
                a,
                at,
                InFlightView::CustomToolCall {
                    item: CustomToolCallView {
                        input: closed_text(item.input, input, told),
                        ..item
                    },
                    input,
                },
            ),
            _ => a,
        },
        None => a,
    }
}

/// The state after a piece of a message arrived.
pub open spec fn text_added(
    a: AccumulatorView,
    item_id: Seq<char>,
    delta: Seq<char>,
) -> AccumulatorView {
    let at = crate::in_flight::key_place(a.in_flight, item_id, 0);
    match at {
        Some(i) => match a.in_flight[i].1.item {
            InFlightView::Message { item, text } => with_item_at(
                a,
                at,
                InFlightView::Message { item, text: text + delta },
            ),
            _ => a,
        },
        None => a,
    }
}

/// The state after an event. `fresh` is what a fresh identity is made of, where the
/// event needs one.
pub open spec fn event_step(
    a: AccumulatorView,
    frame: EventFrameView,
    fresh: Seq<char>,
) -> AccumulatorView {
    match (frame.event_type, frame.payload) {
        (
            SSEEventType::ResponseCreated,
            EventPayloadView::Response { id, status, usage },
        ) => if id.len()
            == 0 {
            a
        } else {
            AccumulatorView { response_id: id, ..a }
        },
        (SSEEventType::OutputItemAdded, payload) => item_added(a, payload, fresh),
        (SSEEventType::OutputItemDone, payload) => item_done(a, payload, fresh),
        (SSEEventType::ReasoningTextDelta, EventPayloadView::ReasoningDelta { delta, item_id }) =>
        reasoning_added(a, item_id, delta),
        (
            SSEEventType::ReasoningTextDone,
            EventPayloadView::ReasoningDone { text: told, item_id },
        ) => reasoning_ended(a, item_id, told),
        (
            SSEEventType::FunctionCallArgumentsDelta,
            EventPayloadView::FunctionCallArgsDelta { delta, call_id, item_id, output_index },
        ) => arguments_added(a, item_id, output_index, delta),
        (
            SSEEventType::FunctionCallArgumentsDone,
            EventPayloadView::FunctionCallArgsDone {
                arguments: told,
                call_id,
                item_id,
                name,
                output_index,
            },
        ) => arguments_ended(a, item_id, output_index, call_id, name, told),
        (
            SSEEventType::CustomToolCallInputDelta,
            EventPayloadView::CustomToolCallInputDelta { delta, item_id, output_index },
        ) => input_added(a, item_id, delta),
        (
            SSEEventType::CustomToolCallInputDone,
            EventPayloadView::CustomToolCallInputDone { input: told, item_id, output_index },
        ) => input_ended(a, item_id, told),
        (
            SSEEventType::OutputTextDelta,
            EventPayloadView::TextDelta { delta, item_id, output_index, content_index },
        ) => text_added(a, item_id, delta),
        (SSEEventType::ResponseCompleted, EventPayloadView::Response { id, status, usage }) =>
        response_finished(a, ResponseStatus::Completed, usage),
        (SSEEventType::ResponseFailed, EventPayloadView::Response { id, status, usage }) =>
        response_finished(a, ResponseStatus::Error, usage),
        (SSEEventType::ResponseIncomplete, EventPayloadView::Response { id, status, usage }) =>
        response_finished(a, ResponseStatus::Incomplete, usage),
        _ => a,
    }
}

/// The details of a response that failed or was interrupted, read from its fields.
pub open spec fn details_of(value: Option<JsonView>) -> Option<IncompleteDetailsView> {
    match value {
        Some(value) => match crate::wire::record_fields(value, seq!["reason"@], 1) {
            Some(fields) => match crate::wire::opt_text(fields, "reason"@) {
                Some(reason) => Some(IncompleteDetailsView { reason }),
                None => None,
            },
            None => None,
        },
        None => None,
    }
}

fn read_details(value: Option<&Json>) -> (out: Option<IncompleteDetails>)
    ensures
        crate::data::opt_view(out) == details_of(crate::json::ref_view(value)),
{
    let value = match value {
        Some(value) => value,
        None => {
            return None;
        },
    };
    let names: Vec<&'static str> = vec!["reason"];
    proof {
        assert(crate::data::views(names@) =~= seq!["reason"@]);
    }
    match crate::wire::read_record_fields(value, &names, 1) {
        Some(fields) => match crate::wire::read_opt_text(&fields, "reason") {
            Some(reason) => Some(IncompleteDetails { reason }),
            None => None,
        },
        None => None,
    }
}

/// The state after an event was looked at for why a response failed.
pub open spec fn details_captured(a: AccumulatorView, frame: EventFrameView) -> AccumulatorView {
    if !(frame.event_type is ResponseFailed || frame.event_type is ResponseIncomplete) {
        a
    } else {
        match crate::json::object_field(frame.wire.rest, "response"@) {
            None => a,
            Some(response) => AccumulatorView {
                incomplete_details: details_of(crate::json::field(response, "incomplete_details"@)),
                error: crate::custom::non_null(crate::json::field(response, "error"@)),
                ..a
            },
        }
    }
}

/// The state after a line of the stream. A line without an event changes nothing.
pub open spec fn line_step(
    a: AccumulatorView,
    line: Seq<char>,
    fresh: Seq<char>,
) -> AccumulatorView {
    match crate::events::line_frame(line) {
        Some(frame) => event_step(details_captured(a, frame), frame, fresh),
        None => a,
    }
}

/// Whether each of some texts is a UUID.
pub open spec fn all_uuids(texts: Seq<Seq<char>>) -> bool {
    forall|i: int| 0 <= i < texts.len() ==> crate::ids::is_uuid7(#[trigger] texts[i])
}

/// Whether an event is of a kind that may need a fresh identity.
pub open spec fn may_need_fresh(event_type: SSEEventType) -> bool {
    event_type is OutputItemAdded || event_type is OutputItemDone
}

/// An event that neither adds nor finishes an item needs no fresh identity.
pub(crate) proof fn fresh_is_for_items(
    a: AccumulatorView,
    frame: EventFrameView,
    one: Seq<char>,
    other: Seq<char>,
)
    requires
        one == other || !may_need_fresh(frame.event_type),
    ensures
        event_step(a, frame, one) == event_step(a, frame, other),
{
}

/// A UUID: the drawn text where an event may need one, else any.
pub(crate) proof fn uuid_like(event_type: SSEEventType, drawn: Seq<char>) -> (uuid: Seq<char>)
    requires
        may_need_fresh(event_type) ==> crate::ids::is_uuid7(drawn),
    ensures
        crate::ids::is_uuid7(uuid),
        uuid == drawn || !may_need_fresh(event_type),
{
    if may_need_fresh(event_type) {
        drawn
    } else {
        crate::ids::uuids_exist();
        choose|uuid: Seq<char>| crate::ids::is_uuid7(uuid)
    }
}

/// What is wrong with the data of a line, where it has data other than the end mark that is
/// no JSON.
pub open spec fn unreadable(line: Seq<char>) -> Option<Seq<char>> {
    unreadable_as(line, crate::json::read_json(line.skip("data: "@.len() as int)))
}

/// What is wrong with the data of a line, where it has data other than the end mark that
/// reads as given.
pub open spec fn unreadable_as(
    line: Seq<char>,
    read: Result<JsonView, Seq<char>>,
) -> Option<Seq<char>> {
    let data = line.skip("data: "@.len() as int);
    if !crate::text::has_prefix(line, "data: "@) || crate::text::trim_text(data) == "[DONE]"@ {
        None
    } else {
        match read {
            Ok(_) => None,
            Err(reason) => Some(reason),
        }
    }
}

/// What is wrong with the first unreadable line, from `i` on.
pub open spec fn first_unreadable(lines: Seq<Seq<char>>, i: int) -> Option<Seq<char>>
    decreases lines.len() - i,
{
    if i < 0 || i >= lines.len() {
        None
    } else {
        match unreadable(lines[i]) {
            Some(reason) => Some(reason),
            None => first_unreadable(lines, i + 1),
        }
    }
}

/// What the lines of a stream come to, with the state after them: an unreadable line is an
/// error.
pub open spec fn stream_read(lines: Seq<Seq<char>>, read: AccumulatorView) -> Result<
    AccumulatorView,
    ExecutorErrorView,
> {
    match first_unreadable(lines, 0) {
        Some(reason) => Err(ExecutorErrorView::ParseError(reason)),
        None => streamed(read),
    }
}

/// What is wrong with the data of a line, where it has data other than the end mark, from
/// what the data reads as.
pub fn unreadable_data(line: &str, read: Result<Json, String>) -> (reason: Option<String>)
    ensures
        crate::data::opt_view(reason) == unreadable_as(line@, crate::json::read_view(read)),
{
    match strip_prefix(line, "data: ") {
        Some(data) if !same_text(trim(data.as_str()).as_str(), "[DONE]") => match read {
            Ok(_) => None,
            Err(reason) => Some(reason),
        },
        _ => None,
    }
}

fn find_unreadable(lines: &Vec<String>) -> (reason: Option<String>)
    ensures
        crate::data::opt_view(reason) == first_unreadable(crate::data::views(lines@), 0),
{
    let ghost all = crate::data::views(lines@);
    let mut i: usize = 0;
    while i < lines.len()
        invariant
            i <= lines@.len(),
            all == crate::data::views(lines@),
            first_unreadable(all, 0) == first_unreadable(all, i as int),
        decreases lines@.len() - i,
    {
        proof {
            assert(all[i as int] == lines@[i as int]@);
        }
        if let Some(data) = strip_prefix(lines[i].as_str(), "data: ") {
            let reason = unreadable_data(lines[i].as_str(), Json::read(data.as_str()));
            if reason.is_some() {
                return reason;
            }
        }
        i = i + 1;
    }
    None
}

/// The identity and the place of the function call that an event speaks of.
pub open spec fn function_key(payload: EventPayloadView) -> Option<(Seq<char>, u32)> {
    match payload {
        EventPayloadView::OutputItemAdded {
            item_id,
            item_type: SSEItemType::FunctionCall,
            output_index,
            ..
        } => Some((item_id, output_index)),
        EventPayloadView::OutputItemDone {
            item_id,
            item_type: SSEItemType::FunctionCall,
            output_index,
            ..
        } => Some((item_id, output_index)),
        EventPayloadView::FunctionCallArgsDelta { item_id, output_index, .. } => Some(
            (item_id, output_index),
        ),
        EventPayloadView::FunctionCallArgsDone { item_id, output_index, .. } => Some(
            (item_id, output_index),
        ),
        _ => None,
    }
}

/// The identity and the place of the function call that an event speaks of.
pub fn function_event_key(payload: &EventPayload) -> (key: Option<(String, u32)>)
    ensures
        match key {
            Some(k) => function_key(payload@) == Some((k.0@, k.1)),
            None => function_key(payload@) is None,
        },
{
    match payload {
        EventPayload::OutputItemAdded {
            item_id,
            item_type: SSEItemType::FunctionCall,
            output_index,
            ..
        } => Some((item_id.clone(), *output_index)),
        EventPayload::OutputItemDone {
            item_id,
            item_type: SSEItemType::FunctionCall,
            output_index,
            ..
        } => Some((item_id.clone(), *output_index)),
        EventPayload::FunctionCallArgsDelta { item_id, output_index, .. } => Some(
            (item_id.clone(), *output_index),
        ),
        EventPayload::FunctionCallArgsDone { item_id, output_index, .. } => Some(
            (item_id.clone(), *output_index),
        ),
        _ => None,
    }
}

/// The last finished function call at a place, before `n`.
pub open spec fn finished_call(
    completed: Seq<(u32, OutputItemView)>,
    output_index: u32,
    n: int,
) -> Option<
    FunctionToolCallView,
>
    decreases n,
{
    if n <= 0 {
        None
    } else {
        match completed[n - 1].1 {
            OutputItemView::FunctionCall(call) if completed[n - 1].0 == output_index => Some(call),
            _ => finished_call(completed, output_index, n - 1),
        }
    }
}

/// The function call that is known by an identity and a place: one in flight, else
/// the last that finished at the place.
pub open spec fn known_call(a: AccumulatorView, item_id: Seq<char>, output_index: u32) -> Option<
    AccumulatedFunctionCallView,
> {
    match call_for(a.in_flight, item_id, SSEItemType::FunctionCall, output_index) {
        Some(i) => match a.in_flight[i].1.item {
            InFlightView::FunctionCall { item, arguments } => Some(
                AccumulatedFunctionCallView {
                    item,
                    output_index: a.in_flight[i].1.output_index,
                    gathered: arguments,
                },
            ),
            _ => None,
        },
        None => match finished_call(a.completed, output_index, a.completed.len() as int) {
            Some(call) => Some(
                AccumulatedFunctionCallView { item: call, output_index, gathered: call.arguments },
            ),
            None => None,
        },
    }
}

/// The tool-search call that is known by an identity and a place.
pub open spec fn known_search(a: AccumulatorView, item_id: Seq<char>, output_index: u32) -> Option<
    ToolSearchCallView,
> {
    match crate::in_flight::key_place(a.in_flight, item_id, 0) {
        Some(i) => match a.in_flight[i].1.item {
            InFlightView::ToolSearchCall(call) if a.in_flight[i].1.output_index == output_index => Some(
                call,
            ),
            _ => None,
        },
        None => None,
    }
}

/// The output with the request's tools known: a withheld function's call is
/// refused, an unfinished search is dropped after a failure, and the function that
/// stands for tool search is made public.
pub open spec fn typed_output(
    output: Seq<OutputItemView>,
    tool_types: Map<Seq<char>, ToolType>,
    withheld: Set<Seq<char>>,
    discard: bool,
    n: int,
) -> Result<Seq<OutputItemView>, ExecutorErrorView>
    decreases n,
{
    if n <= 0 {
        Ok(Seq::empty())
    } else {
        match typed_output(output, tool_types, withheld, discard, n - 1) {
            Err(e) => Err(e),
            Ok(rest) => match typed_item(output[n - 1], tool_types, withheld, discard) {
                Err(e) => Err(e),
                Ok(Some(item)) => Ok(rest.push(item)),
                Ok(None) => Ok(rest),
            },
        }
    }
}

/// One output item with the request's tools known.
pub open spec fn typed_item(
    item: OutputItemView,
    tool_types: Map<Seq<char>, ToolType>,
    withheld: Set<Seq<char>>,
    discard: bool,
) -> Result<Option<OutputItemView>, ExecutorErrorView> {
    if item matches OutputItemView::FunctionCall(call) && withheld.contains(call.name) {
        Err(ExecutorErrorView::Tool(crate::error::withheld_function_call()))
    } else if discard && (item matches OutputItemView::FunctionCall(call) && is_search_name(
        tool_types,
        call.name,
    ) && call.status != MessageStatus::Completed) {
        Ok(None)
    } else if discard && (item matches OutputItemView::ToolSearchCall(call) && call.status
        != ToolSearchStatus::Completed) {
        Ok(None)
    } else {
        match normalized(item, tool_types) {
            Ok(item) => Ok(Some(item)),
            Err(e) => Err(ExecutorErrorView::Tool(e)),
        }
    }
}

proof fn typed_output_stops(
    output: Seq<OutputItemView>,
    tool_types: Map<Seq<char>, ToolType>,
    withheld: Set<Seq<char>>,
    discard: bool,
    n: int,
    m: int,
)
    requires
        n <= m,
        typed_output(output, tool_types, withheld, discard, n) is Err,
    ensures
        typed_output(output, tool_types, withheld, discard, m) == typed_output(
            output,
            tool_types,
            withheld,
            discard,
            n,
        ),
    decreases m - n,
{
    if n < m {
        typed_output_stops(output, tool_types, withheld, discard, n, m - 1);
    }
}

fn type_item(
    item: &OutputItem,
    tool_types: &Table<String, ToolType>,
    withheld: &Keys<String>,
    discard: bool,
) -> (out: Result<Option<OutputItem>, ExecutorError>)
    ensures
        item_outcome(out) == typed_item(item@, tool_types@, withheld@, discard),
{
    match item {
        OutputItem::FunctionCall(call) => {
            if withheld.contains(&call.name) {
                return Err(ExecutorError::Tool(invalid_upstream_withheld_function_call()));
            }
            if discard && names_search(
                tool_types,
                &call.name,
            ) && call.status != MessageStatus::Completed {
                return Ok(None);
            }
        },
        OutputItem::ToolSearchCall(call) => {
            if discard && call.status != ToolSearchStatus::Completed {
                return Ok(None);
            }
        },
        _ => {},
    }
    match normalize_output_item(item.copied(), tool_types) {
        Ok(item) => Ok(Some(item)),
        Err(e) => Err(ExecutorError::Tool(e)),
    }
}

/// A response read from one JSON body that was parsed.
pub open spec fn accumulator_of_json(
    body: Result<JsonView, Seq<char>>,
    conversation_id: Option<Seq<char>>,
) -> Result<
    AccumulatorView,
    ExecutorErrorView,
> {
    match body {
        Err(reason) => Err(ExecutorErrorView::ParseError(reason)),
        Ok(body) => match crate::json::text_of(crate::json::field(body, "id"@)) {
            None => Err(ExecutorErrorView::ParseError("missing 'id' field in response"@)),
            Some(id) => Ok(
                AccumulatorView {
                    output: match crate::json::field(body, "output"@) {
                        Some(JsonView::Array(items)) => crate::wire::readable_of::<OutputItem>(
                            items,
                            items.len() as int,
                        ),
                        _ => Seq::empty(),
                    },
                    status: match crate::json::text_of(crate::json::field(body, "status"@)) {
                        Some(t) => response_status_of(t),
                        None => ResponseStatus::Completed,
                    },
                    usage: crate::events::usage_of(crate::json::field(body, "usage"@)),
                    incomplete_details: details_of(crate::json::field(body, "incomplete_details"@)),
                    error: crate::custom::non_null(crate::json::field(body, "error"@)),
                    ..fresh_accumulator(id, conversation_id)
                },
            ),
        },
    }
}

impl ResponseAccumulator {
    /// Nothing of a response is known yet but its identity.
    pub fn new(response_id: String, conversation_id: Option<String>) -> (acc: ResponseAccumulator)
        ensures
            acc@ == fresh_accumulator(response_id@, crate::data::opt_view(conversation_id)),
    {
        let acc = ResponseAccumulator {
            response_id,
            conversation_id,
            output: Vec::new(),
            usage: None,
            status: ResponseStatus::InProgress,
            incomplete_details: None,
            error: None,
            in_flight: InFlightItems::new(),
            completed: Vec::new(),
            tool_types: Table::new(),
            processing_error: None,
        };
        proof {
            assert(acc@ =~= fresh_accumulator(response_id@, crate::data::opt_view(conversation_id)));
        }
        acc
    }

    /// Makes the request's tools known.
    pub fn with_tool_types(
        self,
        tool_types: Table<String, ToolType>,
        withheld: &Keys<String>,
    ) -> (out: Result<
        ResponseAccumulator,
        ExecutorError,
    >)
        ensures
            match typed_output(
                self@.output,
                tool_types@,
                withheld@,
                discards(self@.status),
                self@.output.len() as int,
            ) {
                Ok(output) => out matches Ok(acc) && acc@ == (AccumulatorView {
                    output,
                    tool_types: tool_types@,
                    ..self@
                }),
                Err(e) => out matches Err(x) && x@ == e,
            },
    {
        let discard = match self.status {
            ResponseStatus::Error | ResponseStatus::Incomplete => true,
            _ => false,
        };
        let ghost all = crate::data::views(self.output@);
        let ghost n = all.len() as int;
        let mut output: Vec<OutputItem> = Vec::new();
        let mut i: usize = 0;
        proof {
            assert(crate::data::views(output@) =~= Seq::empty());
        }
        while i < self.output.len()
            invariant
                i <= self.output@.len() == n,
                all == crate::data::views(self.output@),
                discard == discards(self.status),
                typed_output(all, tool_types@, withheld@, discard, i as int) == Ok::<
                    _,
                    ExecutorErrorView,
                >(crate::data::views(output@)),
            decreases self.output@.len() - i,
        {
            match type_item(&self.output[i], &tool_types, withheld, discard) {
                Err(e) => {
                    proof {
                        typed_output_stops(all, tool_types@, withheld@, discard, i + 1, n);
                    }
                    return Err(e);
                },
                Ok(Some(item)) => {
                    proof {
                        crate::data::views_push(output@, item);
                    }
                    output.push(item);
                },
                Ok(None) => {},
            }
            i = i + 1;
        }
        let mut acc = self;
        acc.output = output;
        acc.tool_types = tool_types;
        Ok(acc)
    }

    /// A response read from one JSON body.
    pub fn from_json(body: &str, conversation_id: Option<String>) -> (out: Result<
        ResponseAccumulator,
        ExecutorError,
    >)
        ensures
            crate::error::outcome(out) == accumulator_of_json(
                crate::json::read_json(body@),
                crate::data::opt_view(conversation_id),
            ),
    {
        let parsed = Json::read(body);
        Self::from_parsed(&parsed, conversation_id)
    }

    /// A response read from one JSON body that was parsed.
    pub fn from_parsed(
        body: &Result<Json, String>,
        conversation_id: Option<String>,
    ) -> (out: Result<ResponseAccumulator, ExecutorError>)
        ensures
            crate::error::outcome(out) == accumulator_of_json(
                crate::json::read_view(*body),
                crate::data::opt_view(conversation_id),
            ),
    {
        let body = match body {
            Ok(body) => body,
            Err(reason) => {
                return Err(ExecutorError::ParseError(reason.clone()));
            },
        };
        let id = match body.get_str("id") {
            Some(id) => id.to_owned(),
            None => {
                return Err(ExecutorError::ParseError("missing 'id' field in response".to_owned()));
            },
        };
        let mut acc = Self::new(id, conversation_id);
        if let Some(Json::Array(items)) = body.get("output") {
            acc.output = read_readable::<OutputItem>(items);
        }
        acc.status = match body.get_str("status") {
            Some(t) => ResponseStatus::from_text(t),
            None => ResponseStatus::Completed,
        };
        acc.usage = read_usage(body.get("usage"));
        acc.incomplete_details = read_details(body.get("incomplete_details"));
        acc.error = crate::custom::copy_non_null(body.get("error"));
        Ok(acc)
    }

    /// Ends everything in flight.
    pub fn finalize_all(&mut self)
        ensures
            final(self)@ == all_ended(old(self)@),
    {
        let ghost start = self@;
        let entries = self.in_flight.take_all();
        let discard = match self.status {
            ResponseStatus::Error | ResponseStatus::Incomplete => true,
            _ => false,
        };
        let ghost all = entries_of(start.in_flight);
        let ghost cleared = AccumulatorView { in_flight: Seq::empty(), ..start };
        let ghost n = all.len() as int;
        proof {
            assert(crate::data::views(entries@) =~= all);
            assert(self@ =~= cleared);
        }
        let mut rest = entries;
        let ghost mut i: int = 0;
        proof {
            assert(crate::data::views(rest@) =~= all.skip(0));
        }
        while rest.len() > 0
            invariant
                crate::data::views(rest@) == all.skip(i),
                0 <= i,
                i + rest@.len() == n == all.len(),
                discard == discards(start.status),
                cleared == (AccumulatorView { in_flight: Seq::empty(), ..start }),
                self@ == end_items(all, cleared, i),
            decreases rest@.len(),
        {
            let ghost before = crate::data::views(rest@);
            let ghost before_rest = rest@;
            let entry = rest.remove(0);
            proof {
                assert(rest@ =~= before_rest.skip(1));
                assert(crate::data::views(rest@) =~= before.skip(1));
                assert(before.skip(1) =~= all.skip(i + 1));
                assert(before[0] == entry@);
                assert(all[i] == entry@);
                assert(crate::data::views(rest@) =~= all.skip(i + 1));
                end_items_keeps(all, cleared, i);
            }
            let InFlightEntry { output_index, item } = entry;
            match item.finalize(&self.tool_types, discard) {
                Ok(Some(item)) => {
                    let ghost completed = self.completed@;
                    self.completed.push((output_index, item));
                    proof {
                        assert(placed(self.completed@) =~= placed(completed).push((output_index, item@)));
                    }
                },
                Ok(None) => {},
                Err(e) => {
                    if self.processing_error.is_none() {
                        self.processing_error = Some(e);
                    }
                },
            }
            proof {
                assert(self@ =~= end_items(all, cleared, i + 1));
            }
            proof {
                i = i + 1;
            }
        }
        let ghost ended_state = self@;
        self.sort_completed();
        let ghost sorted = placed(self.completed@);
        let mut completed: Vec<(u32, OutputItem)> = Vec::new();
        core::mem::swap(&mut self.completed, &mut completed);
        let ghost output_before = crate::data::views(self.output@);
        proof {
            assert(placed(completed@) == sorted);
            assert(unplaced(sorted).take(0) =~= Seq::empty());
            assert(crate::data::views(self.output@) =~= output_before + unplaced(sorted).take(0));
            assert(completed@.skip(0) =~= completed@);
        }
        let ghost done = completed@;
        let ghost total = completed@.len();
        let ghost mut j: int = 0;
        let ghost frozen = *self;
        while completed.len() > 0
            invariant
                0 <= j,
                j + completed@.len() == total == done.len(),
                completed@ == done.skip(j),
                sorted == placed(done),
                crate::data::views(self.output@) == output_before + unplaced(sorted).take(j),
                self@ == (AccumulatorView { output: crate::data::views(self.output@), ..frozen@ }),
            decreases completed@.len(),
        {
            let ghost item_view = sorted[j].1;
            let entry = completed.remove(0);
            proof {
                assert(entry == done[j]);
                assert(entry.1@ == item_view);
                assert(completed@ =~= done.skip(j + 1));
                crate::data::views_push(self.output@, entry.1);
                assert(unplaced(sorted).take(j + 1) =~= unplaced(sorted).take(j).push(item_view));
                assert((output_before + unplaced(sorted).take(j)).push(item_view)
                    =~= output_before + unplaced(sorted).take(j + 1));
            }
            self.output.push(entry.1);
            proof {
                j = j + 1;
            }
        }
        proof {
            assert(unplaced(sorted).take(total as int) =~= unplaced(sorted));
            assert(self@ =~= all_ended(start));
        }
    }

    /// Puts the finished items in the order of their places.
    fn sort_completed(&mut self)
        ensures
            final(self)@ == (AccumulatorView {
                completed: by_place(old(self)@.completed),
                ..old(self)@
            }),
    {
        let ghost start = self@;
        let mut completed: Vec<(u32, OutputItem)> = Vec::new();
        core::mem::swap(&mut self.completed, &mut completed);
        let ghost done = completed@;
        let ghost all = placed(done);
        let mut sorted: Vec<(u32, OutputItem)> = Vec::new();
        let ghost mut i: int = 0;
        proof {
            assert(placed(sorted@) =~= by_place(all.take(0)));
            assert(completed@ =~= done.skip(0));
        }
        while completed.len() > 0
            invariant
                0 <= i,
                i + completed@.len() == done.len(),
                completed@ == done.skip(i),
                all == placed(done),
                placed(sorted@) == by_place(all.take(i)),
            decreases completed@.len(),
        {
            let item = completed.remove(0);
            proof {
                assert(item == done[i]);
                assert(completed@ =~= done.skip(i + 1));
                assert(all.take(i + 1).drop_last() =~= all.take(i));
                assert(all.take(i + 1).last() == (item.0, item.1@));
            }
            insert_by_place(&mut sorted, item);
            proof {
                i = i + 1;
            }
        }
        proof {
            assert(all.take(all.len() as int) =~= all);
        }
        self.completed = sorted;
        proof {
            assert(self@ =~= (AccumulatorView { completed: by_place(start.completed), ..start }));
        }
    }

    fn fail(&mut self, error: ExecutorError)
        ensures
            final(self)@ == with_error(old(self)@, error@),
    {
        if self.processing_error.is_none() {
            self.processing_error = Some(error);
        }
    }

    /// Tracks an item that was added.
    fn start_output_item(&mut self, payload: &EventPayload, fresh: &str)
        ensures
            final(self)@ == item_added(old(self)@, payload@, fresh@),
    {
        if let EventPayload::OutputItemAdded { item_id, output_index, .. } = payload {
            match begin_item(payload, fresh) {
                Ok(Some(item)) => {
                    let is_function = match &item {
                        InFlight::FunctionCall { .. } => true,
                        _ => false,
                    };
                    let place_based = is_function && (item_id.as_str().is_empty()
                        || self.in_flight.position(item_id.as_str()).is_some());
                    let key = if place_based {
                        let base = concat(
                            "__output_index_",
                            decimal(*output_index as u64).as_str(),
                        );
                        find_free_key(&self.in_flight, base)
                    } else {
                        item_id.clone()
                    };
                    self.in_flight.insert(key, InFlightEntry { output_index: *output_index, item });
                },
                Ok(None) => {},
                Err(e) => {
                    self.fail(ExecutorError::Tool(e));
                },
            }
        }
    }

    /// Takes in an item that is done.
    fn complete_call_item(&mut self, payload: &EventPayload, fresh: &str)
        ensures
            final(self)@ == item_done(old(self)@, payload@, fresh@),
    {
        if let EventPayload::OutputItemDone { item_id, item_type, output_index, item: raw } = payload {
            let ghost start = self@;
            match in_flight_call_place(
                &self.in_flight,
                item_id.as_str(),
                *item_type,
                *output_index,
            ) {
                Some(i) => {
                    let key = self.in_flight.key_at(i);
                    let item = self.in_flight.take_item(i);
                    let refused = refusal_of(&item, raw);
                    match finish_call(key.as_str(), item, raw, &self.tool_types, fresh) {
                        Ok(done) => {
                            self.in_flight.put_item(i, done);
                            proof {
                                assert(self@ =~= item_done(start, payload@, fresh@));
                            }
                        },
                        Err(e) => {
                            self.in_flight.put_item(i, refused);
                            self.fail(ExecutorError::Tool(e));
                            proof {
                                assert(self@ =~= item_done(start, payload@, fresh@));
                            }
                        },
                    }
                },
                None => {
                    let done = OutputItem::from_json(raw);
                    self.complete_untracked_call_item(done, *output_index, fresh);
                },
            }
        }
    }

    /// Takes in an item that is done and was not tracked.
    fn complete_untracked_call_item(
        &mut self,
        done: Option<OutputItem>,
        output_index: u32,
        fresh: &str,
    )
        ensures
            final(self)@ == untracked_done(
                old(self)@,
                crate::data::opt_view(done),
                output_index,
                fresh@,
            ),
    {
        let item = match done {
            Some(item) => item,
            None => {
                return ;
            },
        };
        match normalize_output_item(item, &self.tool_types) {
            Err(e) => {
                self.fail(ExecutorError::Tool(e));
            },
            Ok(item) => {
                let finished = match item {
                    OutputItem::Message(_) | OutputItem::Reasoning(_) | OutputItem::McpToolCall(_) => {
                        return ;
                    },
                    OutputItem::WebSearchCall(call) => {
                        let mut call = call;
                        call.id = id_or(call.id.as_str(), "ws_", fresh);
                        OutputItem::WebSearchCall(call)
                    },
                    item => item,
                };
                let ghost before = self.completed@;
                self.completed.push((output_index, finished));
                proof {
                    assert(placed(self.completed@) =~= placed(before).push((output_index, finished@)));
                }
            },
        }
    }

    fn finish_response(&mut self, status: ResponseStatus, usage: Option<ResponseUsage>)
        ensures
            final(self)@ == response_finished(old(self)@, status, usage),
    {
        self.status = status;
        self.finalize_all();
        self.usage = usage;
    }

    fn add_reasoning(&mut self, item_id: &str, delta: &str)
        ensures
            final(self)@ == reasoning_added(old(self)@, item_id@, delta@),
    {
        let ghost start = self@;
        if let Some(i) = self.in_flight.position(item_id) {
            if let InFlight::Reasoning { .. } = &self.in_flight.at(i).item {
                let item = match self.in_flight.take_item(i) {
                    InFlight::Reasoning { item, text } => {
                        let mut text = text;
                        text.append(delta);
                        InFlight::Reasoning { item, text }
                    },
                    other => other,
                };
                self.in_flight.put_item(i, item);
            }
        }
        proof {
            assert(self@ =~= reasoning_added(start, item_id@, delta@));
        }
    }

    fn end_reasoning(&mut self, item_id: &str, told: &str)
        ensures
            final(self)@ == reasoning_ended(old(self)@, item_id@, told@),
    {
        let ghost start = self@;
        if let Some(i) = self.in_flight.position(item_id) {
            if let InFlight::Reasoning { .. } = &self.in_flight.at(i).item {
                let item = match self.in_flight.take_item(i) {
                    InFlight::Reasoning { item, text } => {
                        let mut item = item;
                        let said = replace_text(text, told);
                        if !said.as_str().is_empty() {
                            let step = ReasoningTextContent { text: said };
                            proof {
                                crate::data::views_push(item.content@, step);
                            }
                            item.content.push(step);
                        }
                        InFlight::Reasoning { item, text: String::new() }
                    },
                    other => other,
                };
                self.in_flight.put_item(i, item);
            }
        }
        proof {
            assert(self@ =~= reasoning_ended(start, item_id@, told@));
        }
    }

    fn add_arguments(&mut self, item_id: &str, output_index: u32, delta: &str)
        ensures
            final(self)@ == arguments_added(old(self)@, item_id@, output_index, delta@),
    {
        let ghost start = self@;
        if let Some(i) = in_flight_call_place(
            &self.in_flight,
            item_id,
            SSEItemType::FunctionCall,
            output_index,
        ) {
            let item = match self.in_flight.take_item(i) {
                InFlight::FunctionCall { item, arguments } => {
                    let mut arguments = arguments;
                    arguments.append(delta);
                    InFlight::FunctionCall { item, arguments }
                },
                other => other,
            };
            self.in_flight.put_item(i, item);
            proof {
                call_for_is_call(
                    start.in_flight,
                    item_id@,
                    SSEItemType::FunctionCall,
                    output_index,
                );
            }
        }
        proof {
            assert(self@ =~= arguments_added(start, item_id@, output_index, delta@));
        }
    }

    fn end_arguments(
        &mut self,
        item_id: &str,
        output_index: u32,
        call_id: &Option<String>,
        name: &str,
        told: &str,
    )
        ensures
            final(self)@ == arguments_ended(
                old(self)@,
                item_id@,
                output_index,
                crate::data::opt_view(*call_id),
                name@,
                told@,
            ),
    {
        let ghost start = self@;
        if let Some(i) = in_flight_call_place(
            &self.in_flight,
            item_id,
            SSEItemType::FunctionCall,
            output_index,
        ) {
            let item = match self.in_flight.take_item(i) {
                InFlight::FunctionCall { item, arguments } => {
                    let mut item = item;
                    let call_id = text_or_empty(call_id);
                    item.call_id = replace_text(item.call_id, call_id.as_str());
                    item.name = replace_text(item.name, name);
                    item.arguments = close_text(item.arguments, &arguments, told);
                    InFlight::FunctionCall { item, arguments }
                },
                other => other,
            };
            self.in_flight.put_item(i, item);
            proof {
                call_for_is_call(
                    start.in_flight,
                    item_id@,
                    SSEItemType::FunctionCall,
                    output_index,
                );
            }
        }
        proof {
            assert(self@ =~= arguments_ended(
                start,
                item_id@,
                output_index,
                crate::data::opt_view(*call_id),
                name@,
                told@,
            ));
        }
    }

    fn add_input(&mut self, item_id: &str, delta: &str)
        ensures
            final(self)@ == input_added(old(self)@, item_id@, delta@),
    {
        let ghost start = self@;
        if let Some(i) = self.in_flight.position(item_id) {
            if let InFlight::CustomToolCall { .. } = &self.in_flight.at(i).item {
                let item = match self.in_flight.take_item(i) {
                    InFlight::CustomToolCall { item, input } => {
                        let mut input = input;
                        input.append(delta);
                        InFlight::CustomToolCall { item, input }
                    },
                    other => other,
                };
                self.in_flight.put_item(i, item);
            }
        }
        proof {
            assert(self@ =~= input_added(start, item_id@, delta@));
        }
    }

    fn end_input(&mut self, item_id: &str, told: &str)
        ensures
            final(self)@ == input_ended(old(self)@, item_id@, told@),
    {
        let ghost start = self@;
        if let Some(i) = self.in_flight.position(item_id) {
            if let InFlight::CustomToolCall { .. } = &self.in_flight.at(i).item {
                let item = match self.in_flight.take_item(i) {
                    InFlight::CustomToolCall { item, input } => {
                        let mut item = item;
                        item.input = close_text(item.input, &input, told);
                        InFlight::CustomToolCall { item, input }
                    },
                    other => other,
                };
                self.in_flight.put_item(i, item);
            }
        }
        proof {
            assert(self@ =~= input_ended(start, item_id@, told@));
        }
    }

    fn add_text(&mut self, item_id: &str, delta: &str)
        ensures
            final(self)@ == text_added(old(self)@, item_id@, delta@),
    {
        let ghost start = self@;
        if let Some(i) = self.in_flight.position(item_id) {
            if let InFlight::Message { .. } = &self.in_flight.at(i).item {
                let item = match self.in_flight.take_item(i) {
                    InFlight::Message { item, text } => {
                        let mut text = text;
                        text.append(delta);
                        InFlight::Message { item, text }
                    },
                    other => other,
                };
                self.in_flight.put_item(i, item);
            }
        }
        proof {
            assert(self@ =~= text_added(start, item_id@, delta@));
        }
    }

    /// Takes in an event, with what a fresh identity is made of.
    pub fn process_event_with(&mut self, frame: &EventFrame, fresh: &str)
        ensures
            final(self)@ == event_step(old(self)@, frame@, fresh@),
    {
        match (frame.event_type, &frame.payload) {
            (SSEEventType::ResponseCreated, EventPayload::Response { id, .. }) => {
                if !id.as_str().is_empty() {
                    self.response_id = id.clone();
                }
            },
            (SSEEventType::OutputItemAdded, payload) => {
                self.start_output_item(payload, fresh);
            },
            (SSEEventType::OutputItemDone, payload) => {
                self.complete_call_item(payload, fresh);
            },
            (SSEEventType::ReasoningTextDelta, EventPayload::ReasoningDelta { delta, item_id }) => {
                self.add_reasoning(item_id.as_str(), delta.as_str());
            },
            (
                SSEEventType::ReasoningTextDone,
                EventPayload::ReasoningDone { text: told, item_id },
            ) => {
                self.end_reasoning(item_id.as_str(), told.as_str());
            },
            (
                SSEEventType::FunctionCallArgumentsDelta,
                EventPayload::FunctionCallArgsDelta { delta, item_id, output_index, .. },
            ) => {
                self.add_arguments(item_id.as_str(), *output_index, delta.as_str());
            },
            (
                SSEEventType::FunctionCallArgumentsDone,
                EventPayload::FunctionCallArgsDone {
                    arguments: told,
                    call_id,
                    item_id,
                    name,
                    output_index,
                },
            ) => {
                self.end_arguments(
                    item_id.as_str(),
                    *output_index,
                    call_id,
                    name.as_str(),
                    told.as_str(),
                );
            },
            (
                SSEEventType::CustomToolCallInputDelta,
                EventPayload::CustomToolCallInputDelta { delta, item_id, .. },
            ) => {
                self.add_input(item_id.as_str(), delta.as_str());
            },
            (
                SSEEventType::CustomToolCallInputDone,
                EventPayload::CustomToolCallInputDone { input: told, item_id, .. },
            ) => {
                self.end_input(item_id.as_str(), told.as_str());
            },
            (SSEEventType::OutputTextDelta, EventPayload::TextDelta { delta, item_id, .. }) => {
                self.add_text(item_id.as_str(), delta.as_str());
            },
            (SSEEventType::ResponseCompleted, EventPayload::Response { usage, .. }) => {
                self.finish_response(ResponseStatus::Completed, *usage);
            },
            (SSEEventType::ResponseFailed, EventPayload::Response { usage, .. }) => {
                self.finish_response(ResponseStatus::Error, *usage);
            },
            (SSEEventType::ResponseIncomplete, EventPayload::Response { usage, .. }) => {
                self.finish_response(ResponseStatus::Incomplete, *usage);
            },
            _ => {},
        }
    }

    /// Takes in an event.
    pub fn process_event(&mut self, frame: &EventFrame)
        ensures
            exists|fresh: Seq<char>|
                crate::ids::is_uuid7(fresh) && final(self)@ == #[trigger] event_step(
                    old(self)@,
                    frame@,
                    fresh,
                ),
    {
        let fresh = fresh_for(frame);
        proof {
            let uuid = uuid_like(frame@.event_type, fresh@);
            fresh_is_for_items(self@, frame@, fresh@, uuid);
        }
        self.process_event_with(frame, fresh.as_str());
    }

    /// Keeps why a response failed or was interrupted.
    fn capture_terminal_details_if_needed(&mut self, frame: &EventFrame)
        ensures
            final(self)@ == details_captured(old(self)@, frame@),
    {
        let ends = match frame.event_type {
            SSEEventType::ResponseFailed | SSEEventType::ResponseIncomplete => true,
            _ => false,
        };
        if ends {
            self.capture_terminal_details(frame);
        }
    }

    fn capture_terminal_details(&mut self, frame: &EventFrame)
        requires
            frame@.event_type is ResponseFailed || frame@.event_type is ResponseIncomplete,
        ensures
            final(self)@ == details_captured(old(self)@, frame@),
    {
        if let Some(response) = frame.wire.rest.get("response") {
            self.incomplete_details = read_details(response.get("incomplete_details"));
            self.error = crate::custom::copy_non_null(response.get("error"));
        }
    }

    /// Takes in an event, and why a response failed where the event says so.
    pub fn process_normalized_frame(&mut self, frame: &EventFrame, fresh: &str)
        ensures
            final(self)@ == event_step(details_captured(old(self)@, frame@), frame@, fresh@),
    {
        self.capture_terminal_details_if_needed(frame);
        self.process_event_with(frame, fresh);
    }

    /// Takes in a line of the stream, and gives back its event.
    pub fn process_sse_line(&mut self, line: &str) -> (frame: Option<EventFrame>)
        ensures
            crate::data::opt_view(frame) == crate::events::line_frame(line@),
            exists|fresh: Seq<char>|
                crate::ids::is_uuid7(fresh) && final(self)@ == #[trigger] line_step(
                    old(self)@,
                    line@,
                    fresh,
                ),
    {
        let ghost start = self@;
        match normalize_sse_line(line) {
            Some(frame) => {
                let fresh = fresh_for(&frame);
                self.process_normalized_frame(&frame, fresh.as_str());
                proof {
                    let uuid = uuid_like(frame@.event_type, fresh@);
                    fresh_is_for_items(details_captured(start, frame@), frame@, fresh@, uuid);
                    assert(self@ == line_step(start, line@, uuid));
                }
                Some(frame)
            },
            None => {
                proof {
                    crate::ids::uuids_exist();
                    let uuid = choose|uuid: Seq<char>| crate::ids::is_uuid7(uuid);
                    assert(self@ == line_step(start, line@, uuid));
                }
                None
            },
        }
    }

    /// Ends a stream: what is in flight ends, and a response that was not told
    /// otherwise is complete.
    pub fn finish_stream(&mut self)
        ensures
            final(self)@ == stream_ended(old(self)@),
    {
        self.finalize_all();
        if self.status == ResponseStatus::InProgress {
            self.status = ResponseStatus::Completed;
        }
    }

    /// A response read from lines that were gathered before. A line that is no event
    /// is skipped.
    pub fn from_sse_lines(
        lines: &Vec<String>,
        conversation_id: Option<String>,
    ) -> (acc: ResponseAccumulator)
        ensures
            exists|id: Seq<char>, fresh: Seq<Seq<char>>|
                crate::ids::is_uuid7(id) && all_uuids(fresh) && fresh.len() == lines@.len() && acc@
                    == all_ended(
                    #[trigger] lines_read(
                        fresh_accumulator(
                            "resp_"@ + id,
                            crate::data::opt_view(conversation_id),
                        ),
                        crate::data::views(lines@),
                        fresh,
                        lines@.len() as int,
                    ),
                ),
    {
        let mut acc = Self::read_lines(lines, conversation_id);
        acc.finalize_all();
        acc
    }

    /// A response read from the lines of a stream that has ended, or what is wrong with the
    /// first line of data that is no JSON.
    pub fn process_stream_chunks(
        lines: &Vec<String>,
        conversation_id: Option<String>,
    ) -> (out: Result<
        ResponseAccumulator,
        ExecutorError,
    >)
        ensures
            exists|id: Seq<char>, fresh: Seq<Seq<char>>|
                crate::ids::is_uuid7(id) && all_uuids(fresh) && fresh.len() == lines@.len()
                    && crate::error::outcome(out) == stream_read(
                    crate::data::views(lines@),
                    #[trigger] lines_read(
                        fresh_accumulator(
                            "resp_"@ + id,
                            crate::data::opt_view(conversation_id),
                        ),
                        crate::data::views(lines@),
                        fresh,
                        lines@.len() as int,
                    ),
                ),
    {
        let bad = find_unreadable(lines);
        let mut acc = Self::read_lines(lines, conversation_id);
        if let Some(reason) = bad {
            return Err(ExecutorError::ParseError(reason));
        }
        acc.finish_stream();
        match acc.take_processing_error() {
            Some(error) => Err(error),
            None => Ok(acc),
        }
    }

    fn read_lines(
        lines: &Vec<String>,
        conversation_id: Option<String>,
    ) -> (acc: ResponseAccumulator)
        ensures
            exists|id: Seq<char>, fresh: Seq<Seq<char>>|
                crate::ids::is_uuid7(id) && all_uuids(fresh) && fresh.len() == lines@.len() && acc@
                    == #[trigger] lines_read(
                    fresh_accumulator("resp_"@ + id, crate::data::opt_view(conversation_id)),
                    crate::data::views(lines@),
                    fresh,
                    lines@.len() as int,
                ),
    {
        let uuid = fresh_uuid();
        let mut acc = Self::new(concat("resp_", uuid.as_str()), conversation_id);
        let ghost all = crate::data::views(lines@);
        let ghost start = acc@;
        let ghost mut fresh: Seq<Seq<char>> = Seq::empty();
        let mut i: usize = 0;
        while i < lines.len()
            invariant
                i <= lines@.len(),
                all == crate::data::views(lines@),
                fresh.len() == i,
                all_uuids(fresh),
                acc@ == lines_read(start, all, fresh, i as int),
            decreases lines@.len() - i,
        {
            let ghost before = acc@;
            let _ = acc.process_sse_line(lines[i].as_str());
            proof {
                let used = choose|used: Seq<char>|
                    crate::ids::is_uuid7(used) && acc@ == #[trigger] line_step(
                        before,
                        all[i as int],
                        used,
                    );
                lines_read_extend(start, all, fresh, used, i as int);
                fresh = fresh.push(used);
            }
            i = i + 1;
        }
        proof {
            assert(start == fresh_accumulator(
                "resp_"@ + uuid@,
                crate::data::opt_view(conversation_id),
            ));
        }
        acc
    }

    /// The function call that is known by an identity and a place.
    pub fn accumulated_function_call(&self, item_id: &str, output_index: u32) -> (call: Option<
        AccumulatedFunctionCall,
    >)
        ensures
            crate::data::opt_view(call) == known_call(self@, item_id@, output_index),
    {
        if let Some(i) = in_flight_call_place(
            &self.in_flight,
            item_id,
            SSEItemType::FunctionCall,
            output_index,
        ) {
            let entry = self.in_flight.at(i);
            return match &entry.item {
                InFlight::FunctionCall { item, arguments } => Some(
                    AccumulatedFunctionCall {
                        item: item.copied(),
                        output_index: entry.output_index,
                        gathered: arguments.clone(),
                    },
                ),
                _ => None,
            };
        }
        let mut i: usize = self.completed.len();
        while i > 0
            invariant
                i <= self.completed@.len(),
                call_for(
                    self@.in_flight,
                    item_id@,
                    SSEItemType::FunctionCall,
                    output_index,
                ) is None,
                finished_call(self@.completed, output_index, self@.completed.len() as int)
                    == finished_call(self@.completed, output_index, i as int),
            decreases i,
        {
            proof {
                assert(self@.completed[i - 1] == (self.completed@[i - 1].0, self.completed@[i - 1].1@));
            }
            if let OutputItem::FunctionCall(item) = &self.completed[i - 1].1 {
                if self.completed[i - 1].0 == output_index {
                    return Some(
                        AccumulatedFunctionCall {
                            item: item.copied(),
                            output_index,
                            gathered: item.arguments.clone(),
                        },
                    );
                }
            }
            i = i - 1;
        }
        None
    }

    /// The tool-search call that is known by an identity and a place.
    pub fn accumulated_tool_search_call(&self, item_id: &str, output_index: u32) -> (call: Option<
        ToolSearchCall,
    >)
        ensures
            crate::data::opt_view(call) == known_search(self@, item_id@, output_index),
    {
        match self.in_flight.position(item_id) {
            Some(i) => {
                let entry = self.in_flight.at(i);
                match &entry.item {
                    InFlight::ToolSearchCall(call) => if entry.output_index == output_index {
                        Some(call.copied())
                    } else {
                        None
                    },
                    _ => None,
                }
            },
            None => None,
        }
    }

    /// Marks the response as interrupted, and says why.
    pub fn mark_incomplete(&mut self, reason: String)
        ensures
            final(self)@ == (AccumulatorView {
                status: ResponseStatus::Incomplete,
                incomplete_details: Some(IncompleteDetailsView { reason: Some(reason@) }),
                ..old(self)@
            }),
    {
        self.status = ResponseStatus::Incomplete;
        self.incomplete_details = Some(IncompleteDetails { reason: Some(reason) });
    }

    /// Takes the first error out.
    pub fn take_processing_error(&mut self) -> (error: Option<ExecutorError>)
        ensures
            crate::data::opt_view(error) == old(self)@.processing_error,
            final(self)@ == (AccumulatorView { processing_error: None, ..old(self)@ }),
    {
        self.processing_error.take()
    }

    /// The response as it is, made at the given time.
    pub fn finalize_at(
        self,
        created_at: i64,
        model: &str,
        previous_response_id: Option<String>,
        instructions: Option<String>,
    ) -> (payload: ResponsePayload)
        ensures
            payload@ == response_of(
                self@,
                created_at,
                model@,
                crate::data::opt_view(previous_response_id),
                crate::data::opt_view(instructions),
            ),
    {
        ResponsePayload {
            id: self.response_id,
            object: "response".to_owned(),
            created_at,
            model: model.to_owned(),
            status: self.status.as_str().to_owned(),
            output: self.output,
            usage: self.usage,
            incomplete_details: self.incomplete_details,
            error: self.error,
            previous_response_id,
            conversation_id: self.conversation_id,
            instructions,
        }
    }

    /// The response as it is. What comes from the request and not from the upstream
    /// server is given by the caller.
    pub fn finalize(
        self,
        model: &str,
        previous_response_id: Option<String>,
        instructions: Option<String>,
    ) -> (payload: ResponsePayload)
        ensures
            payload@ == response_of(
                self@,
                payload@.created_at,
                model@,
                crate::data::opt_view(previous_response_id),
                crate::data::opt_view(instructions),
            ),
    {
        let now: i64 = now_seconds();
        self.finalize_at(now, model, previous_response_id, instructions)
    }
}

/// The state after a stream ended.
pub open spec fn stream_ended(a: AccumulatorView) -> AccumulatorView {
    let a1 = all_ended(a);
    AccumulatorView {
        status: if a1.status is InProgress {
            ResponseStatus::Completed
        } else {
            a1.status
        },
        ..a1
    }
}

/// What a stream has come to once it has ended: its state, or the error that it met.
pub open spec fn streamed(a: AccumulatorView) -> Result<AccumulatorView, ExecutorErrorView> {
    let end = stream_ended(a);
    match end.processing_error {
        Some(e) => Err(e),
        None => Ok(end),
    }
}

/// The state after the first `n` lines, with what each fresh identity is made of.
pub open spec fn lines_read(
    a: AccumulatorView,
    lines: Seq<Seq<char>>,
    fresh: Seq<Seq<char>>,
    n: int,
) -> AccumulatorView
    decreases n,
{
    if n <= 0 {
        a
    } else {
        line_step(lines_read(a, lines, fresh, n - 1), lines[n - 1], fresh[n - 1])
    }
}

proof fn lines_read_extend(
    a: AccumulatorView,
    lines: Seq<Seq<char>>,
    fresh: Seq<Seq<char>>,
    more: Seq<char>,
    n: int,
)
    requires
        fresh.len() == n,
    ensures
        lines_read(a, lines, fresh.push(more), n + 1) == line_step(
            lines_read(a, lines, fresh, n),
            lines[n],
            more,
        ),
{
    lines_read_same(a, lines, fresh, fresh.push(more), n);
}

proof fn lines_read_same(
    a: AccumulatorView,
    lines: Seq<Seq<char>>,
    x: Seq<Seq<char>>,
    y: Seq<Seq<char>>,
    n: int,
)
    requires
        n <= x.len(),
        n <= y.len(),
        forall|i: int| 0 <= i < n ==> x[i] == y[i],
    ensures
        lines_read(a, lines, x, n) == lines_read(a, lines, y, n),
    decreases n,
{
    if n > 0 {
        lines_read_same(a, lines, x, y, n - 1);
    }
}

/// The response that a state stands for.
pub open spec fn response_of(
    a: AccumulatorView,
    created_at: i64,
    model: Seq<char>,
    previous_response_id: Option<Seq<char>>,
    instructions: Option<Seq<char>>,
) -> ResponsePayloadView {
    ResponsePayloadView {
        id: a.response_id,
        object: "response"@,
        created_at,
        model,
        status: response_status_text(a.status),
        output: a.output,
        usage: a.usage,
        incomplete_details: a.incomplete_details,
        error: a.error,
        previous_response_id,
        conversation_id: a.conversation_id,
        instructions,
    }
}

proof fn call_for_is_call(
    items: Seq<(Seq<char>, InFlightEntryView)>,
    item_id: Seq<char>,
    item_type: SSEItemType,
    output_index: u32,
)
    ensures
        call_for(items, item_id, item_type, output_index) matches Some(i) ==> is_call_of(
            items[i].1.item,
            item_type,
        ),
{
    call_at_place_is_call(items, item_type, output_index, 0);
}

proof fn call_at_place_is_call(
    items: Seq<(Seq<char>, InFlightEntryView)>,
    item_type: SSEItemType,
    output_index: u32,
    i: int,
)
    ensures
        call_at_place(items, item_type, output_index, i) matches Some(k) ==> is_call_of(
            items[k].1.item,
            item_type,
        ),
    decreases items.len() - i,
{
    if 0 <= i < items.len() {
        call_at_place_is_call(items, item_type, output_index, i + 1);
    }
}

/// What a fresh identity is made of, where an event may need one.
pub(crate) fn fresh_for(frame: &EventFrame) -> (fresh: String)
    ensures
        may_need_fresh(frame@.event_type) ==> crate::ids::is_uuid7(fresh@),
{
    match frame.event_type {
        SSEEventType::OutputItemAdded | SSEEventType::OutputItemDone => fresh_uuid(),
        _ => String::new(),
    }
}

/// What a function call is after its item is done and it was refused as a search.
fn refusal_of(item: &InFlight, raw: &Json) -> (out: InFlight)
    ensures
        out@ == after_refusal(item@, raw@),
{
    match item {
        InFlight::FunctionCall { item, arguments } => {
            let fields = fields_or_empty(raw);
            InFlight::FunctionCall {
                item: finish_function(item.copied(), arguments, &fields),
                arguments: arguments.clone(),
            }
        },
        other => other.copied(),
    }
}

} // verus!
