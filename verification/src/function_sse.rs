//! Restoration of streamed upstream function calls to the public shape of each call.
use vstd::prelude::*;
#[allow(unused_imports)]
use vstd::string::*;
#[allow(unused_imports)]
use vstd::utf8::*;

use crate::accumulator::{function_event_key, AccumulatedFunctionCall, ResponseAccumulator};
#[allow(unused_imports)]
use crate::accumulator::{AccumulatedFunctionCallView, AccumulatorView};
use crate::custom_input::{custom_input_start, read_whole_part, unescape};
use crate::data::{copy_vec, same_vec, Data};
#[allow(unused_imports)]
use crate::error::{
    invalid_upstream_search_call, invalid_upstream_withheld_function_call, ExecutorError,
    ExecutorErrorView,
};
use crate::events::{
    normalize_sse_line, synthetic_event, EventFrame, EventPayload, SSEEventType, SSEItemType,
};
#[allow(unused_imports)]
use crate::events::{EventFrameView, EventPayloadView};
use crate::items::ToolSearchCall;
#[allow(unused_imports)]
use crate::items::ToolSearchCallView;
#[allow(unused_imports)]
use crate::json::{Json, JsonObject, JsonView};
use crate::search::{public_added_item, public_output_item, public_output_item_from_raw};
use crate::tables::{Keys, Table};
use crate::text::{byte_len, concat, same_text, strip_prefix};
use crate::tools::ToolType;
use crate::wire_items::{search_call_to_fields};

verus! {

/// A call of the function that stands for tool search, while it is streamed.
#[derive(Debug, Clone, PartialEq)]
pub struct ToolSearchCallState {
    pub upstream_item_id: String,
    pub public_item_id: String,
    pub call_id: String,
    pub output_index: u32,
    pub accounted_argument_bytes: usize,
    pub arguments_done: bool,
}

/// The view of a [`ToolSearchCallState`].
#[verifier::ext_equal]
pub struct ToolSearchCallStateView {
    pub upstream_item_id: Seq<char>,
    pub public_item_id: Seq<char>,
    pub call_id: Seq<char>,
    pub output_index: u32,
    pub accounted_argument_bytes: usize,
    pub arguments_done: bool,
}

impl View for ToolSearchCallState {
    type V = ToolSearchCallStateView;

    open spec fn view(&self) -> ToolSearchCallStateView {
        ToolSearchCallStateView {
            upstream_item_id: self.upstream_item_id@,
            public_item_id: self.public_item_id@,
            call_id: self.call_id@,
            output_index: self.output_index,
            accounted_argument_bytes: self.accounted_argument_bytes,
            arguments_done: self.arguments_done,
        }
    }
}

impl Data for ToolSearchCallState {
    fn copied(&self) -> (out: ToolSearchCallState) {
        ToolSearchCallState {
            upstream_item_id: self.upstream_item_id.copied(),
            public_item_id: self.public_item_id.copied(),
            call_id: self.call_id.copied(),
            output_index: self.output_index,
            accounted_argument_bytes: self.accounted_argument_bytes,
            arguments_done: self.arguments_done,
        }
    }

    fn same(&self, other: &ToolSearchCallState) -> (yes: bool) {
        self.upstream_item_id.same(&other.upstream_item_id)
            && self.public_item_id.same(&other.public_item_id)
            && self.call_id.same(&other.call_id)
            && self.output_index == other.output_index
            && self.accounted_argument_bytes == other.accounted_argument_bytes
            && self.arguments_done == other.arguments_done
    }
}

/// A custom tool call, while it is streamed as a function call.
#[derive(Debug, Clone, PartialEq)]
pub struct CustomCallState {
    pub public_item_id: String,
    pub output_index: u32,
    /// What was sent of the input so far.
    pub emitted_input: String,
    /// The byte of the arguments at which the encoded input starts.
    pub input_start: Option<usize>,
    /// The byte of the arguments up to which the input was read.
    pub input_cursor: usize,
    pub input_done: bool,
}

/// The view of a [`CustomCallState`].
#[verifier::ext_equal]
pub struct CustomCallStateView {
    pub public_item_id: Seq<char>,
    pub output_index: u32,
    pub emitted_input: Seq<char>,
    pub input_start: Option<usize>,
    pub input_cursor: usize,
    pub input_done: bool,
}

impl View for CustomCallState {
    type V = CustomCallStateView;

    open spec fn view(&self) -> CustomCallStateView {
        CustomCallStateView {
            public_item_id: self.public_item_id@,
            output_index: self.output_index,
            emitted_input: self.emitted_input@,
            input_start: self.input_start,
            input_cursor: self.input_cursor,
            input_done: self.input_done,
        }
    }
}

impl Data for CustomCallState {
    fn copied(&self) -> (out: CustomCallState) {
        CustomCallState {
            public_item_id: self.public_item_id.copied(),
            output_index: self.output_index,
            emitted_input: self.emitted_input.copied(),
            input_start: self.input_start,
            input_cursor: self.input_cursor,
            input_done: self.input_done,
        }
    }

    fn same(&self, other: &CustomCallState) -> (yes: bool) {
        self.public_item_id.same(&other.public_item_id)
            && self.output_index == other.output_index
            && self.emitted_input.same(&other.emitted_input)
            && self.input_start == other.input_start
            && self.input_cursor == other.input_cursor
            && self.input_done == other.input_done
    }
}

/// What a streamed function call is to the client.
#[derive(Debug, Clone, PartialEq)]
pub enum FunctionCallShape {
    PublicFunction,
    GatewayOwned,
    Custom(CustomCallState),
    ToolSearch(ToolSearchCallState),
}

/// The view of a [`FunctionCallShape`].
#[verifier::ext_equal]
pub enum FunctionCallShapeView {
    PublicFunction,
    GatewayOwned,
    Custom(CustomCallStateView),
    ToolSearch(ToolSearchCallStateView),
}

impl View for FunctionCallShape {
    type V = FunctionCallShapeView;

    open spec fn view(&self) -> FunctionCallShapeView {
        match *self {
            FunctionCallShape::PublicFunction => FunctionCallShapeView::PublicFunction,
            FunctionCallShape::GatewayOwned => FunctionCallShapeView::GatewayOwned,
            FunctionCallShape::Custom(x) => FunctionCallShapeView::Custom(x@),
            FunctionCallShape::ToolSearch(x) => FunctionCallShapeView::ToolSearch(x@),
        }
    }
}

impl Data for FunctionCallShape {
    fn copied(&self) -> (out: FunctionCallShape) {
        match self {
            FunctionCallShape::PublicFunction => FunctionCallShape::PublicFunction,
            FunctionCallShape::GatewayOwned => FunctionCallShape::GatewayOwned,
            FunctionCallShape::Custom(x) => FunctionCallShape::Custom(x.copied()),
            FunctionCallShape::ToolSearch(x) => FunctionCallShape::ToolSearch(x.copied()),
        }
    }

    fn same(&self, other: &FunctionCallShape) -> (yes: bool) {
        match (self, other) {
            (FunctionCallShape::PublicFunction, FunctionCallShape::PublicFunction) => true,
            (FunctionCallShape::GatewayOwned, FunctionCallShape::GatewayOwned) => true,
            (FunctionCallShape::Custom(a), FunctionCallShape::Custom(b)) => a.same(b),
            (FunctionCallShape::ToolSearch(a), FunctionCallShape::ToolSearch(b)) => a.same(b),
            _ => false,
        }
    }
}

/// The events of a function call whose name is not known yet.
#[derive(Debug, Clone, PartialEq)]
pub struct PendingFunctionCall {
    pub output_index: u32,
    pub frames: Vec<EventFrame>,
    pub bytes: usize,
}

/// The view of a [`PendingFunctionCall`].
#[verifier::ext_equal]
pub struct PendingFunctionCallView {
    pub output_index: u32,
    pub frames: Seq<EventFrameView>,
    pub bytes: usize,
}

impl View for PendingFunctionCall {
    type V = PendingFunctionCallView;

    open spec fn view(&self) -> PendingFunctionCallView {
        PendingFunctionCallView {
            output_index: self.output_index,
            frames: crate::data::views(self.frames@),
            bytes: self.bytes,
        }
    }
}

impl Data for PendingFunctionCall {
    fn copied(&self) -> (out: PendingFunctionCall) {
        PendingFunctionCall {
            output_index: self.output_index,
            frames: copy_vec(&self.frames),
            bytes: self.bytes,
        }
    }

    fn same(&self, other: &PendingFunctionCall) -> (yes: bool) {
        self.output_index == other.output_index
            && same_vec(&self.frames, &other.frames)
            && self.bytes == other.bytes
    }
}

/// How many bytes of unresolved function-call events are kept, and how long the
/// arguments of a restored call may be.
pub const MAX_PENDING_FUNCTION_BYTES: usize = 262144;

/// How many function calls may wait for their names.
pub const MAX_PENDING_FUNCTION_CALLS: usize = 128;

/// What a client sees of an upstream event.
#[derive(Debug)]
pub struct FunctionSseTranslation {
    pub frames: Vec<EventFrame>,
    /// The first place from which on output must wait.
    pub defer_from_output_index: Option<u32>,
}

/// The view of a [`FunctionSseTranslation`].
#[verifier::ext_equal]
pub struct FunctionSseTranslationView {
    pub frames: Seq<EventFrameView>,
    pub defer_from_output_index: Option<u32>,
}

impl View for FunctionSseTranslation {
    type V = FunctionSseTranslationView;

    open spec fn view(&self) -> FunctionSseTranslationView {
        FunctionSseTranslationView {
            frames: crate::data::views(self.frames@),
            defer_from_output_index: self.defer_from_output_index,
        }
    }
}

/// Restores streamed upstream function calls to the public shape of each call. Of the
/// request's tools it knows only the types by the names that the model sees.
#[derive(Debug)]
pub struct FunctionSseTranslator {
    pub tool_types: Table<String, ToolType>,
    /// The calls that are being streamed, by their places.
    pub active: Table<u32, FunctionCallShape>,
    /// The calls whose names are not known yet, by their places.
    pub pending_unnamed: Table<u32, PendingFunctionCall>,
    pub pending_bytes: usize,
    pub first_gateway_output_index: Option<u32>,
    pub search_call_seen: bool,
    pub tool_search_enabled: bool,
    pub withheld_function_names: Keys<String>,
    pub upstream_terminal_failure: bool,
}

/// The view of a [`FunctionSseTranslator`].
#[verifier::ext_equal]
pub struct TranslatorView {
    pub tool_types: Map<Seq<char>, ToolType>,
    pub active: Map<u32, FunctionCallShapeView>,
    pub pending_unnamed: Map<u32, PendingFunctionCallView>,
    pub pending_bytes: usize,
    pub first_gateway_output_index: Option<u32>,
    pub search_call_seen: bool,
    pub tool_search_enabled: bool,
    pub withheld_function_names: Set<Seq<char>>,
    pub upstream_terminal_failure: bool,
}

impl View for FunctionSseTranslator {
    type V = TranslatorView;

    open spec fn view(&self) -> TranslatorView {
        TranslatorView {
            tool_types: self.tool_types@,
            active: self.active@,
            pending_unnamed: self.pending_unnamed@,
            pending_bytes: self.pending_bytes,
            first_gateway_output_index: self.first_gateway_output_index,
            search_call_seen: self.search_call_seen,
            tool_search_enabled: self.tool_search_enabled,
            withheld_function_names: self.withheld_function_names@,
            upstream_terminal_failure: self.upstream_terminal_failure,
        }
    }
}

/// The view of a call that may be absent.
pub open spec fn call_view(call: Option<&AccumulatedFunctionCall>) -> Option<
    AccumulatedFunctionCallView,
> {
    match call {
        Some(c) => Some(c@),
        None => None,
    }
}

/// The view of a tool-search call that may be absent.
pub open spec fn search_view(call: Option<&ToolSearchCall>) -> Option<ToolSearchCallView> {
    match call {
        Some(c) => Some(c@),
        None => None,
    }
}

/// The view of events, or of an error.
pub open spec fn frames_outcome(out: Result<Vec<EventFrame>, ExecutorError>) -> Result<
    Seq<EventFrameView>,
    ExecutorErrorView,
> {
    match out {
        Ok(frames) => Ok(crate::data::views(frames@)),
        Err(e) => Err(e@),
    }
}

/// The view of an outcome without a value.
pub open spec fn done_outcome(out: Result<(), ExecutorError>) -> Result<(), ExecutorErrorView> {
    match out {
        Ok(_) => Ok(()),
        Err(e) => Err(e@),
    }
}

/// The error of a malformed tool-search call.
pub open spec fn bad_search() -> ExecutorErrorView {
    ExecutorErrorView::Tool(crate::error::invalid_search_call())
}

fn search_error() -> (error: ExecutorError)
    ensures
        error@ == bad_search(),
{
    ExecutorError::Tool(invalid_upstream_search_call())
}

/// Whether arguments are not too long to be restored.
pub open spec fn fits(arguments: Seq<char>) -> bool {
    encode_utf8(arguments).len() <= MAX_PENDING_FUNCTION_BYTES
}

/// The error of arguments that are too long.
pub open spec fn size_error() -> ExecutorErrorView {
    ExecutorErrorView::StreamError("function-call SSE exceeded 262144 buffered bytes"@)
}

fn too_long() -> (error: ExecutorError)
    ensures
        error@ == size_error(),
{
    ExecutorError::StreamError("function-call SSE exceeded 262144 buffered bytes".to_owned())
}

/// Refuses arguments that are too long.
pub fn ensure_function_call_size(arguments: &str) -> (out: Result<(), ExecutorError>)
    ensures
        out is Ok == fits(arguments@),
        out matches Err(e) ==> e@ == size_error(),
{
    if byte_len(arguments) > MAX_PENDING_FUNCTION_BYTES {
        Err(too_long())
    } else {
        Ok(())
    }
}

/// Refuses more bytes than arguments may have.
pub fn ensure_function_call_size_for(current: usize, additional: usize) -> (out: Result<
    (),
    ExecutorError,
>)
    ensures
        out is Ok == (current + additional <= MAX_PENDING_FUNCTION_BYTES),
        out matches Err(e) ==> e@ == size_error(),
{
    if current.saturating_add(additional) > MAX_PENDING_FUNCTION_BYTES {
        Err(too_long())
    } else {
        Ok(())
    }
}

/// The events of the input of a custom call.
pub open spec fn input_event(
    state: CustomCallStateView,
    event_type: SSEEventType,
    key: Seq<char>,
    text: Seq<char>,
) -> EventFrameView {
    crate::events::synthetic(
        event_type,
        state.output_index,
        Map::<Seq<char>, JsonView>::empty().insert(key, JsonView::Text(text)).insert(
            "item_id"@,
            JsonView::Text(state.public_item_id),
        ),
    )
}

fn make_input_event(
    state: &CustomCallState,
    event_type: SSEEventType,
    key: &str,
    text: &str,
) -> (frame: EventFrame)
    ensures
        frame@ == input_event(state@, event_type, key@, text@),
{
    let mut fields = JsonObject::new();
    fields.set_str(key, text);
    fields.set_str("item_id", state.public_item_id.as_str());
    synthetic_event(event_type, state.output_index, fields)
}

/// The fields of a custom call's public item.
pub open spec fn custom_item(
    id: Seq<char>,
    status: Seq<char>,
    call_id: Seq<char>,
    input: Seq<char>,
    name: Seq<char>,
) -> Map<Seq<char>, JsonView> {
    Map::<Seq<char>, JsonView>::empty().insert("id"@, JsonView::Text(id)).insert(
        "type"@,
        JsonView::Text("custom_tool_call"@),
    ).insert("status"@, JsonView::Text(status)).insert("call_id"@, JsonView::Text(call_id)).insert(
        "input"@,
        JsonView::Text(input),
    ).insert("name"@, JsonView::Text(name))
}

fn make_custom_item(
    id: &str,
    status: &str,
    call_id: &str,
    input: &str,
    name: &str,
) -> (fields: JsonObject)
    ensures
        fields@ == custom_item(id@, status@, call_id@, input@, name@),
{
    let mut fields = JsonObject::new();
    fields.set_str("id", id);
    fields.set_str("type", "custom_tool_call");
    fields.set_str("status", status);
    fields.set_str("call_id", call_id);
    fields.set_str("input", input);
    fields.set_str("name", name);
    fields
}

/// An event that carries an item.
pub open spec fn item_event(
    event_type: SSEEventType,
    output_index: u32,
    item: Map<Seq<char>, JsonView>,
) -> EventFrameView {
    crate::events::synthetic(
        event_type,
        output_index,
        Map::<Seq<char>, JsonView>::empty().insert("item"@, JsonView::Object(item)),
    )
}

fn make_item_event(
    event_type: SSEEventType,
    output_index: u32,
    item: JsonObject,
) -> (frame: EventFrame)
    ensures
        frame@ == item_event(event_type, output_index, item@),
{
    let mut fields = JsonObject::new();
    fields.set("item", Json::Object(item));
    synthetic_event(event_type, output_index, fields)
}

/// The event of a custom call that has begun.
pub open spec fn custom_added(call: AccumulatedFunctionCallView) -> EventFrameView {
    item_event(
        SSEEventType::OutputItemAdded,
        call.output_index,
        custom_item(
            crate::custom::custom_item_id(call.item.id),
            "in_progress"@,
            call.item.call_id,
            Seq::empty(),
            call.item.name,
        ),
    )
}

/// The event of a custom call that has begun.
pub fn custom_added_frame(call: &AccumulatedFunctionCall) -> (frame: EventFrame)
    ensures
        frame@ == custom_added(call@),
{
    let id = crate::custom::public_item_id(call.item.id.as_str());
    let nothing = String::new();
    let item = make_custom_item(
        id.as_str(),
        "in_progress",
        call.item.call_id.as_str(),
        nothing.as_str(),
        call.item.name.as_str(),
    );
    make_item_event(SSEEventType::OutputItemAdded, call.output_index, item)
}

/// The event of a custom call that is done.
pub open spec fn custom_finished(
    state: CustomCallStateView,
    call: AccumulatedFunctionCallView,
) -> EventFrameView {
    item_event(
        SSEEventType::OutputItemDone,
        state.output_index,
        custom_item(
            state.public_item_id,
            "completed"@,
            call.item.call_id,
            state.emitted_input,
            call.item.name,
        ),
    )
}

/// The event of a custom call that is done.
pub fn custom_done_frame(
    state: &CustomCallState,
    call: &AccumulatedFunctionCall,
) -> (frame: EventFrame)
    ensures
        frame@ == custom_finished(state@, call@),
{
    let item = make_custom_item(
        state.public_item_id.as_str(),
        "completed",
        call.item.call_id.as_str(),
        state.emitted_input.as_str(),
        call.item.name.as_str(),
    );
    make_item_event(SSEEventType::OutputItemDone, state.output_index, item)
}

/// What more of a custom call's input can be read from the arguments so far, and the
/// state after it was read.
pub open spec fn more_input(state: CustomCallStateView, arguments: Seq<char>) -> (
    CustomCallStateView,
    Result<Option<Seq<char>>, ExecutorErrorView>,
) {
    let found = match state.input_start {
        Some(at) => Some(at as int),
        None => crate::custom_input::input_start_of(arguments),
    };
    match found {
        None => (state, Ok(None)),
        Some(start) => {
            let begun = if state.input_start is Some {
                state
            } else {
                CustomCallStateView {
                    input_start: Some(start as usize),
                    input_cursor: start as usize,
                    ..state
                }
            };
            if begun.input_cursor < start {
                (begun, Ok(None))
            } else {
                match crate::custom_input::whole_part(arguments, begun.input_cursor as int) {
                    None => (begun, Ok(None)),
                    Some((end, body)) => if end == 0 {
                        (begun, Ok(None))
                    } else {
                        match crate::custom_input::unescaped(body) {
                            Err(reason) => (
                                begun,
                                Err(
                                    ExecutorErrorView::StreamError(
                                        "invalid custom tool input string: "@ + reason,
                                    ),
                                ),
                            ),
                            Ok(delta) => (
                                CustomCallStateView {
                                    input_cursor: (begun.input_cursor + end) as usize,
                                    ..begun
                                },
                                Ok(
                                    if delta.len() == 0 {
                                        None
                                    } else {
                                        Some(delta)
                                    },
                                ),
                            ),
                        }
                    },
                }
            }
        },
    }
}

/// What more of a custom call's input can be read from the arguments so far. Where the
/// arguments were replaced by others in which the byte read up to is not the first of
/// a character, nothing is read.
pub fn partial_custom_input(state: &mut CustomCallState, arguments: &str) -> (out: Result<
    Option<String>,
    ExecutorError,
>)
    ensures
        final(state)@ == more_input(old(state)@, arguments@).0,
        match out {
            Ok(delta) => more_input(old(state)@, arguments@).1 == Ok::<_, ExecutorErrorView>(
                crate::data::opt_view(delta),
            ),
            Err(e) => more_input(old(state)@, arguments@).1 == Err::<Option<Seq<char>>, _>(e@),
        },
{
    let start: usize = match state.input_start {
        Some(at) => at,
        None => match custom_input_start(arguments) {
            Some(at) => {
                state.input_start = Some(at);
                state.input_cursor = at;
                at
            },
            None => {
                return Ok(None);
            },
        },
    };
    if state.input_cursor < start {
        return Ok(None);
    }
    let (end, body) = match read_whole_part(arguments, state.input_cursor) {
        Some(part) => part,
        None => {
            return Ok(None);
        },
    };
    if end == 0 {
        return Ok(None);
    }
    match unescape(body.as_str()) {
        Err(reason) => Err(
            ExecutorError::StreamError(
                concat("invalid custom tool input string: ", reason.as_str()),
            ),
        ),
        Ok(delta) => {
            state.input_cursor = state.input_cursor + end;
            if delta.as_str().is_empty() {
                Ok(None)
            } else {
                Ok(Some(delta))
            }
        },
    }
}

/// The event of the next part of a custom call's input, and the state after it.
pub open spec fn next_delta(state: CustomCallStateView, arguments: Seq<char>) -> (
    CustomCallStateView,
    Result<Seq<EventFrameView>, ExecutorErrorView>,
) {
    if !fits(arguments) {
        (state, Err(size_error()))
    } else {
        let (read, more) = more_input(state, arguments);
        match more {
            Err(e) => (read, Err(e)),
            Ok(None) => (read, Ok(Seq::empty())),
            Ok(Some(delta)) => (
                CustomCallStateView { emitted_input: read.emitted_input + delta, ..read },
                Ok(
                    seq![
                        input_event(read, SSEEventType::CustomToolCallInputDelta, "delta"@, delta),
                    ],
                ),
            ),
        }
    }
}

/// The event of the next part of a custom call's input.
pub fn incremental_custom_delta(state: &mut CustomCallState, arguments: &str) -> (out: Result<
    Vec<EventFrame>,
    ExecutorError,
>)
    ensures
        final(state)@ == next_delta(old(state)@, arguments@).0,
        frames_outcome(out) == next_delta(old(state)@, arguments@).1,
{
    if let Err(e) = ensure_function_call_size(arguments) {
        return Err(e);
    }
    match partial_custom_input(state, arguments) {
        Err(e) => Err(e),
        Ok(None) => {
            let frames: Vec<EventFrame> = Vec::new();
            proof {
                assert(crate::data::views(frames@) =~= Seq::empty());
            }
            Ok(frames)
        },
        Ok(Some(delta)) => {
            let frame = make_input_event(
                &*state,
                SSEEventType::CustomToolCallInputDelta,
                "delta",
                delta.as_str(),
            );
            state.emitted_input.append(delta.as_str());
            let frames = vec![frame];
            proof {
                assert(crate::data::views(frames@) =~= seq![frame@]);
            }
            Ok(frames)
        },
    }
}

/// The events that close a custom call's input, and the state after them. The final
/// input must go on from what was sent.
pub open spec fn input_closed(state: CustomCallStateView, arguments: Seq<char>) -> (
    CustomCallStateView,
    Result<Seq<EventFrameView>, ExecutorErrorView>,
) {
    let input = crate::custom::input_or_arguments(arguments);
    if state.input_done {
        (state, Ok(Seq::empty()))
    } else if !fits(arguments) {
        (state, Err(size_error()))
    } else if !crate::text::has_prefix(input, state.emitted_input) {
        (
            state,
            Err(
                ExecutorErrorView::StreamError(
                    "authoritative custom tool input contradicts streamed custom tool input"@,
                ),
            ),
        )
    } else {
        let remaining = input.skip(state.emitted_input.len() as int);
        let done = input_event(state, SSEEventType::CustomToolCallInputDone, "input"@, input);
        (
            CustomCallStateView { emitted_input: input, input_done: true, ..state },
            Ok(
                if remaining.len() == 0 {
                    seq![done]
                } else {
                    seq![
                        input_event(
                            state,
                            SSEEventType::CustomToolCallInputDelta,
                            "delta"@,
                            remaining,
                        ),
                        done,
                    ]
                },
            ),
        )
    }
}

/// The events that close a custom call's input.
pub fn finish_custom_input(state: &mut CustomCallState, arguments: &str) -> (out: Result<
    Vec<EventFrame>,
    ExecutorError,
>)
    ensures
        final(state)@ == input_closed(old(state)@, arguments@).0,
        frames_outcome(out) == input_closed(old(state)@, arguments@).1,
{
    let mut frames: Vec<EventFrame> = Vec::new();
    proof {
        assert(crate::data::views(frames@) =~= Seq::empty());
    }
    if state.input_done {
        return Ok(frames);
    }
    if let Err(e) = ensure_function_call_size(arguments) {
        return Err(e);
    }
    let input = crate::custom::input_from_arguments(arguments);
    let remaining = match strip_prefix(input.as_str(), state.emitted_input.as_str()) {
        Some(rest) => rest,
        None => {
            return Err(
                ExecutorError::StreamError(
                    "authoritative custom tool input contradicts streamed custom tool input".to_owned(),
                ),
            );
        },
    };
    let ghost before = state@;
    let done = make_input_event(
        &*state,
        SSEEventType::CustomToolCallInputDone,
        "input",
        input.as_str(),
    );
    if !remaining.as_str().is_empty() {
        let delta = make_input_event(
            &*state,
            SSEEventType::CustomToolCallInputDelta,
            "delta",
            remaining.as_str(),
        );
        frames.push(delta);
    }
    frames.push(done);
    state.emitted_input = input;
    state.input_done = true;
    proof {
        assert(crate::data::views(frames@) =~= input_closed(before, arguments@).1->Ok_0);
    }
    Ok(frames)
}

/// What a custom call's input events say: each part is added to what was sent, and what
/// was sent when the input closes is the input itself.
pub proof fn custom_deltas_make_input(state: CustomCallStateView, arguments: Seq<char>)
    ensures
        next_delta(state, arguments).1 matches Ok(frames) ==> {
            let after = next_delta(state, arguments).0;
            ||| frames.len() == 0 && after.emitted_input == state.emitted_input
            ||| exists|delta: Seq<char>|
                after.emitted_input == state.emitted_input + delta && frames == seq![
                    #[trigger] input_event(
                        state,
                        SSEEventType::CustomToolCallInputDelta,
                        "delta"@,
                        delta,
                    ),
                ]
        },
        !state.input_done ==> (input_closed(state, arguments).1 matches Ok(frames) ==> {
            let input = crate::custom::input_or_arguments(arguments);
            let done = input_event(state, SSEEventType::CustomToolCallInputDone, "input"@, input);
            &&& input_closed(state, arguments).0.emitted_input == input
            &&& {
                ||| frames == seq![done] && state.emitted_input == input
                ||| exists|delta: Seq<char>|
                    state.emitted_input + delta == input && frames == seq![
                        #[trigger] input_event(
                            state,
                            SSEEventType::CustomToolCallInputDelta,
                            "delta"@,
                            delta,
                        ),
                        done,
                    ]
            }
        }),
{
    let (read, more) = more_input(state, arguments);
    assert(read.emitted_input == state.emitted_input);
    assert(read.output_index == state.output_index);
    assert(read.public_item_id == state.public_item_id);
    if fits(arguments) {
        if let Ok(Some(delta)) = more {
            assert(input_event(read, SSEEventType::CustomToolCallInputDelta, "delta"@, delta)
                == input_event(state, SSEEventType::CustomToolCallInputDelta, "delta"@, delta));
        }
    }
    if !state.input_done && input_closed(state, arguments).1 is Ok {
        let input = crate::custom::input_or_arguments(arguments);
        let n = state.emitted_input.len() as int;
        let remaining = input.skip(n);
        assert(input =~= input.take(n) + remaining);
        assert(state.emitted_input + remaining =~= input);
        if remaining.len() == 0 {
            assert(state.emitted_input =~= input);
        } else {
            let delta_event = input_event(
                state,
                SSEEventType::CustomToolCallInputDelta,
                "delta"@,
                remaining,
            );
            assert(input_closed(state, arguments).1->Ok_0 == seq![
                delta_event,
                input_event(state, SSEEventType::CustomToolCallInputDone, "input"@, input),
            ]);
        }
    }
}

/// Whether an event names the call that is streamed.
pub open spec fn linked(
    state: ToolSearchCallStateView,
    item_id: Seq<char>,
    call_id: Option<Seq<char>>,
) -> bool {
    item_id == state.upstream_item_id && (call_id matches Some(id) ==> id == state.call_id)
}

/// Refuses an event that does not name the call that is streamed.
pub fn validate_stream_linkage(
    state: &ToolSearchCallState,
    item_id: &str,
    call_id: &Option<String>,
) -> (out: Result<
    (),
    ExecutorError,
>)
    ensures
        out is Ok == linked(state@, item_id@, crate::data::opt_view(*call_id)),
        out matches Err(e) ==> e@ == bad_search(),
{
    let same_call = match call_id {
        Some(id) => same_text(id.as_str(), state.call_id.as_str()),
        None => true,
    };
    if same_text(item_id, state.upstream_item_id.as_str()) && same_call {
        Ok(())
    } else {
        Err(search_error())
    }
}

/// Whether an event that closes arguments says no other name than tool search's.
pub open spec fn done_name_fits(frame: EventFrameView) -> bool {
    match crate::json::object_field(frame.wire.rest, "name"@) {
        Some(name) => name == JsonView::Text("tool_search"@),
        None => true,
    }
}

/// Refuses an event that closes arguments under another name than tool search's.
pub fn validate_active_tool_search_done_name(frame: &EventFrame) -> (out: Result<(), ExecutorError>)
    ensures
        out is Ok == done_name_fits(frame@),
        out matches Err(e) ==> e@ == bad_search(),
{
    match frame.wire.rest.get("name") {
        Some(name) => {
            let fits = match name.as_str() {
                Some(t) => same_text(t, "tool_search"),
                None => false,
            };
            if fits {
                Ok(())
            } else {
                Err(search_error())
            }
        },
        None => Ok(()),
    }
}

/// Refuses an event that does not say its place.
pub fn validate_wire_output_index(frame: &EventFrame, output_index: u32) -> (out: Result<
    (),
    ExecutorError,
>)
    ensures
        out is Ok == (frame@.wire.output_index == Some(output_index as u64)),
        out matches Err(e) ==> e@ == bad_search(),
{
    let placed = match frame.wire.output_index {
        Some(index) => index == output_index as u64,
        None => false,
    };
    if placed {
        Ok(())
    } else {
        Err(search_error())
    }
}

/// Whether what was accumulated of a call is what was streamed of it.
pub open spec fn search_call_agrees(
    state: ToolSearchCallStateView,
    call: AccumulatedFunctionCallView,
    event_item_id: Seq<char>,
) -> Result<(), ExecutorErrorView> {
    if !fits(crate::accumulator::call_arguments(call)) {
        Err(size_error())
    } else if call.output_index != state.output_index || call.item.call_id != state.call_id
        || call.item.id != state.upstream_item_id || event_item_id != state.upstream_item_id {
        Err(bad_search())
    } else {
        Ok(())
    }
}

/// Refuses a call that is not the one that was streamed.
pub fn validate_search_call_state(
    state: &ToolSearchCallState,
    call: &AccumulatedFunctionCall,
    event_item_id: &str,
) -> (out: Result<(), ExecutorError>)
    ensures
        done_outcome(out) == search_call_agrees(state@, call@, event_item_id@),
{
    if let Err(e) = ensure_function_call_size(call.arguments()) {
        return Err(e);
    }
    if call.output_index != state.output_index || !same_text(
        call.item.call_id.as_str(),
        state.call_id.as_str(),
    ) || !same_text(call.item.id.as_str(), state.upstream_item_id.as_str()) || !same_text(
        event_item_id,
        state.upstream_item_id.as_str(),
    ) {
        return Err(search_error());
    }
    Ok(())
}

/// The type of the tool that the model calls by a name; a plain function where the
/// request has none.
pub open spec fn type_of(st: TranslatorView, name: Seq<char>) -> ToolType {
    if st.tool_types.contains_key(name) {
        st.tool_types[name]
    } else {
        ToolType::Function
    }
}

/// The shape of the call at a place.
pub open spec fn shape_at(st: TranslatorView, output_index: u32) -> Option<FunctionCallShapeView> {
    if st.active.contains_key(output_index) {
        Some(st.active[output_index])
    } else {
        None
    }
}

/// The state with a call at a place.
pub open spec fn with_shape(
    st: TranslatorView,
    output_index: u32,
    shape: FunctionCallShapeView,
) -> TranslatorView {
    TranslatorView { active: st.active.insert(output_index, shape), ..st }
}

/// The error of too much that waits for a name.
pub open spec fn limit_error(st: TranslatorView, message: Seq<char>) -> ExecutorErrorView {
    if st.tool_search_enabled {
        bad_search()
    } else {
        ExecutorErrorView::StreamError(message)
    }
}

/// Whether no more calls may wait for their names.
pub open spec fn calls_full(st: TranslatorView, output_index: u32) -> bool {
    !st.pending_unnamed.contains_key(output_index) && st.pending_unnamed.dom().len()
        >= MAX_PENDING_FUNCTION_CALLS
}

/// Whether an event is too much to be kept.
pub open spec fn bytes_full(st: TranslatorView, frame: EventFrameView) -> bool {
    st.pending_bytes + crate::events::wire_bytes(frame.wire) > MAX_PENDING_FUNCTION_BYTES
}

/// The error of too many calls.
pub open spec fn calls_error(st: TranslatorView) -> ExecutorErrorView {
    limit_error(st, "unnamed function-call SSE exceeded 128 pending calls"@)
}

/// The error of too many bytes.
pub open spec fn bytes_error(st: TranslatorView) -> ExecutorErrorView {
    limit_error(st, "unnamed function-call SSE exceeded 262144 buffered bytes"@)
}

/// The state after an event was kept until its call's name is known.
pub open spec fn buffered(st: TranslatorView, output_index: u32, frame: EventFrameView) -> (
    TranslatorView,
    Result<Seq<EventFrameView>, ExecutorErrorView>,
) {
    if bytes_full(st, frame) {
        (st, Err(bytes_error(st)))
    } else if calls_full(st, output_index) {
        (st, Err(calls_error(st)))
    } else {
        let bytes = crate::events::wire_bytes(frame.wire);
        let waiting = if st.pending_unnamed.contains_key(output_index) {
            st.pending_unnamed[output_index]
        } else {
            PendingFunctionCallView { output_index, frames: Seq::empty(), bytes: 0 }
        };
        let total = if waiting.bytes + bytes > usize::MAX {
            usize::MAX as int
        } else {
            waiting.bytes + bytes
        };
        (
            TranslatorView {
                pending_unnamed: st.pending_unnamed.insert(
                    output_index,
                    PendingFunctionCallView {
                        frames: waiting.frames.push(frame),
                        bytes: total as usize,
                        ..waiting
                    },
                ),
                pending_bytes: (st.pending_bytes + bytes) as usize,
                ..st
            },
            Ok(Seq::empty()),
        )
    }
}

/// The state without what waits at a place.
pub open spec fn pending_taken(st: TranslatorView, output_index: u32) -> TranslatorView {
    if st.pending_unnamed.contains_key(output_index) {
        let bytes = st.pending_unnamed[output_index].bytes;
        TranslatorView {
            pending_unnamed: st.pending_unnamed.remove(output_index),
            pending_bytes: if st.pending_bytes >= bytes {
                (st.pending_bytes - bytes) as usize
            } else {
                0
            },
            ..st
        }
    } else {
        st
    }
}

/// The events that wait at a place.
pub open spec fn pending_frames(st: TranslatorView, output_index: u32) -> Seq<EventFrameView> {
    if st.pending_unnamed.contains_key(output_index) {
        st.pending_unnamed[output_index].frames
    } else {
        Seq::empty()
    }
}

/// The identity of the added function call that an event is of.
pub open spec fn added_id(frame: EventFrameView) -> Option<Seq<char>> {
    match frame.payload {
        EventPayloadView::OutputItemAdded {
            item_id,
            item_type: SSEItemType::FunctionCall,
            ..
        } => Some(
            item_id,
        ),
        _ => None,
    }
}

/// How many of the first `n` events add a function call.
pub open spec fn added_count(frames: Seq<EventFrameView>, n: int) -> int
    decreases n,
{
    if n <= 0 {
        0
    } else {
        added_count(frames, n - 1) + if added_id(frames[n - 1]) is Some {
            1int
        } else {
            0
        }
    }
}

/// The first event from `i` on that adds a function call.
pub open spec fn first_added(frames: Seq<EventFrameView>, i: int) -> Option<EventFrameView>
    decreases frames.len() - i,
{
    if i < 0 || i >= frames.len() {
        None
    } else if added_id(frames[i]) is Some {
        Some(frames[i])
    } else {
        first_added(frames, i + 1)
    }
}

/// The events of a call that begins, and the state after them.
pub open spec fn started(
    st: TranslatorView,
    item_id: Seq<char>,
    name: Seq<char>,
    output_index: u32,
    arrived: Option<EventFrameView>,
    call: Option<AccumulatedFunctionCallView>,
) -> (TranslatorView, Result<Seq<EventFrameView>, ExecutorErrorView>) {
    match type_of(st, name) {
        ToolType::Custom => {
            let state = CustomCallStateView {
                public_item_id: crate::custom::custom_item_id(
                    match call {
                        Some(c) => c.item.id,
                        None => item_id,
                    },
                ),
                output_index,
                emitted_input: Seq::empty(),
                input_start: None,
                input_cursor: 0,
                input_done: false,
            };
            (
                with_shape(st, output_index, FunctionCallShapeView::Custom(state)),
                Ok(
                    match call {
                        Some(c) => seq![custom_added(c)],
                        None => Seq::empty(),
                    },
                ),
            )
        },
        ToolType::Mcp | ToolType::WebSearch | ToolType::FileSearch | ToolType::CodeInterpreter => {
            let first = match st.first_gateway_output_index {
                Some(first) if first <= output_index => first,
                _ => output_index,
            };
            (
                with_shape(
                    TranslatorView { first_gateway_output_index: Some(first), ..st },
                    output_index,
                    FunctionCallShapeView::GatewayOwned,
                ),
                Ok(Seq::empty()),
            )
        },
        ToolType::ToolSearch => match (call, arrived) {
            (Some(c), Some(o)) if !st.search_call_seen && !st.active.contains_key(output_index)
                && !st.pending_unnamed.contains_key(output_index) && c.item.namespace is None
                && o.wire.output_index == Some(output_index as u64) && !crate::text::blank(item_id)
                && !crate::text::blank(c.item.call_id) => {
                let state = ToolSearchCallStateView {
                    upstream_item_id: item_id,
                    public_item_id: crate::search::search_item_id(item_id),
                    call_id: c.item.call_id,
                    output_index,
                    accounted_argument_bytes: encode_utf8(
                        crate::accumulator::call_arguments(c),
                    ).len() as usize,
                    arguments_done: false,
                };
                (
                    with_shape(
                        TranslatorView { search_call_seen: true, ..st },
                        output_index,
                        FunctionCallShapeView::ToolSearch(state),
                    ),
                    Ok(
                        seq![
                            item_event(
                                SSEEventType::OutputItemAdded,
                                output_index,
                                crate::search::added_item(item_id, c.item.call_id),
                            ),
                        ],
                    ),
                )
            },
            _ => (st, Err(bad_search())),
        },
        ToolType::Function | ToolType::CodexNamespace => (
            with_shape(st, output_index, FunctionCallShapeView::PublicFunction),
            Ok(
                match arrived {
                    Some(o) => seq![o],
                    None => Seq::empty(),
                },
            ),
        ),
    }
}

/// The events of more arguments, and the state after them.
pub open spec fn delta_step(
    st: TranslatorView,
    item_id: Seq<char>,
    output_index: u32,
    arrived: EventFrameView,
    call: Option<AccumulatedFunctionCallView>,
) -> (TranslatorView, Result<Seq<EventFrameView>, ExecutorErrorView>) {
    match shape_at(st, output_index) {
        Some(FunctionCallShapeView::PublicFunction) => (st, Ok(seq![arrived])),
        Some(FunctionCallShapeView::GatewayOwned) => (st, Ok(Seq::empty())),
        Some(FunctionCallShapeView::Custom(state)) => match call {
            Some(c) => {
                let (after, frames) = next_delta(state, crate::accumulator::call_arguments(c));
                (with_shape(st, output_index, FunctionCallShapeView::Custom(after)), frames)
            },
            None => (st, Ok(Seq::empty())),
        },
        Some(FunctionCallShapeView::ToolSearch(state)) => {
            let call_id = match arrived.payload {
                EventPayloadView::FunctionCallArgsDelta { call_id, .. } => call_id,
                _ => None,
            };
            if linked(state, item_id, call_id) {
                (st, Ok(Seq::empty()))
            } else {
                (st, Err(bad_search()))
            }
        },
        None => buffered(st, output_index, arrived),
    }
}

/// The events of the first `n` kept events once their call has begun, behind those
/// that it began with, and the state after them.
pub open spec fn replayed(
    frames: Seq<EventFrameView>,
    st: TranslatorView,
    begun: Seq<EventFrameView>,
    call: Option<AccumulatedFunctionCallView>,
    n: int,
) -> (TranslatorView, Result<Seq<EventFrameView>, ExecutorErrorView>)
    decreases n,
{
    if n <= 0 {
        (st, Ok(begun))
    } else {
        let (before, so_far) = replayed(frames, st, begun, call, n - 1);
        match so_far {
            Err(e) => (before, Err(e)),
            Ok(sent) => match frames[n - 1].payload {
                EventPayloadView::FunctionCallArgsDelta {
                    delta,
                    call_id,
                    item_id,
                    output_index,
                } => {
                    let (after, more) = delta_step(
                        before,
                        item_id,
                        output_index,
                        frames[n - 1],
                        call,
                    );
                    match more {
                        Err(e) => (after, Err(e)),
                        Ok(more) => (after, Ok(sent + more)),
                    }
                },
                _ => (before, Ok(sent)),
            },
        }
    }
}

proof fn replayed_stops(
    frames: Seq<EventFrameView>,
    st: TranslatorView,
    begun: Seq<EventFrameView>,
    call: Option<AccumulatedFunctionCallView>,
    n: int,
    m: int,
)
    requires
        n <= m,
        replayed(frames, st, begun, call, n).1 is Err,
    ensures
        replayed(frames, st, begun, call, m) == replayed(frames, st, begun, call, n),
    decreases m - n,
{
    if n < m {
        replayed_stops(frames, st, begun, call, n, m - 1);
    }
}

/// The events of a call whose name is known now, and the state after them.
pub open spec fn resolved(
    st: TranslatorView,
    item_id: Seq<char>,
    name: Seq<char>,
    output_index: u32,
    call: Option<AccumulatedFunctionCallView>,
) -> (TranslatorView, Result<Seq<EventFrameView>, ExecutorErrorView>) {
    if st.active.contains_key(output_index) {
        (st, Ok(Seq::empty()))
    } else {
        let frames = pending_frames(st, output_index);
        let taken = pending_taken(st, output_index);
        if type_of(st, name) is ToolSearch && added_count(frames, frames.len() as int) != 1 {
            (taken, Err(bad_search()))
        } else {
            let arrived = first_added(frames, 0);
            let start_id = match arrived {
                Some(o) => added_id(o)->Some_0,
                None => item_id,
            };
            let (begun, sent) = started(taken, start_id, name, output_index, arrived, call);
            match sent {
                Err(e) => (begun, Err(e)),
                Ok(sent) => replayed(frames, begun, sent, call, frames.len() as int),
            }
        }
    }
}

/// Whether the arguments of a search are closed as they were streamed.
pub open spec fn search_arguments_closed(
    state: ToolSearchCallStateView,
    item_id: Seq<char>,
    call_id: Option<Seq<char>>,
    arrived: EventFrameView,
    call: Option<AccumulatedFunctionCallView>,
) -> Result<(), ExecutorErrorView> {
    if !done_name_fits(arrived) || !linked(state, item_id, call_id) {
        Err(bad_search())
    } else {
        match call {
            None => Err(bad_search()),
            Some(c) => match search_call_agrees(state, c, item_id) {
                Err(e) => Err(e),
                Ok(_) => match crate::search::output_item_of(
                    c.item.id,
                    c.item.call_id,
                    crate::json::parsed_json(crate::accumulator::call_arguments(c)),
                ) {
                    Err(e) => Err(ExecutorErrorView::Tool(e)),
                    Ok(public) => if public.id != state.public_item_id || public.call_id
                        != state.call_id {
                        Err(bad_search())
                    } else {
                        Ok(())
                    },
                },
            },
        }
    }
}

/// The events of closed arguments, and the state after them.
pub open spec fn arguments_finished(
    st: TranslatorView,
    item_id: Seq<char>,
    name: Seq<char>,
    output_index: u32,
    call_id: Option<Seq<char>>,
    arrived: EventFrameView,
    call: Option<AccumulatedFunctionCallView>,
) -> (TranslatorView, Result<Seq<EventFrameView>, ExecutorErrorView>) {
    let (known, sent) = resolved(st, item_id, name, output_index, call);
    match sent {
        Err(e) => (known, Err(e)),
        Ok(sent) => match shape_at(known, output_index) {
            Some(FunctionCallShapeView::PublicFunction) | None => (known, Ok(sent.push(arrived))),
            Some(FunctionCallShapeView::GatewayOwned) => (known, Ok(sent)),
            Some(FunctionCallShapeView::Custom(state)) => match call {
                None => (known, Ok(sent)),
                Some(c) => {
                    let (after, more) = input_closed(state, crate::accumulator::call_arguments(c));
                    (
                        with_shape(known, output_index, FunctionCallShapeView::Custom(after)),
                        match more {
                            Err(e) => Err(e),
                            Ok(more) => Ok(sent + more),
                        },
                    )
                },
            },
            Some(FunctionCallShapeView::ToolSearch(state)) => match search_arguments_closed(
                state,
                item_id,
                call_id,
                arrived,
                call,
            ) {
                Err(e) => (known, Err(e)),
                Ok(_) => (
                    with_shape(
                        known,
                        output_index,
                        FunctionCallShapeView::ToolSearch(
                            ToolSearchCallStateView { arguments_done: true, ..state },
                        ),
                    ),
                    Ok(sent),
                ),
            },
        },
    }
}

/// The arguments that a finished search must have: those accumulated, as a function
/// call or as a public search.
pub open spec fn accumulated_search(
    state: ToolSearchCallStateView,
    item_id: Seq<char>,
    call: Option<AccumulatedFunctionCallView>,
    search: Option<ToolSearchCallView>,
) -> Result<Map<Seq<char>, JsonView>, ExecutorErrorView> {
    match (call, search) {
        (Some(c), _) => match search_call_agrees(state, c, item_id) {
            Err(e) => Err(e),
            Ok(_) => {
                let arguments = crate::accumulator::call_arguments(c);
                if !state.arguments_done && arguments.len() == 0 {
                    Err(bad_search())
                } else {
                    match crate::search::output_item_of(
                        c.item.id,
                        c.item.call_id,
                        crate::json::parsed_json(arguments),
                    ) {
                        Err(e) => Err(ExecutorErrorView::Tool(e)),
                        Ok(public) => Ok(public.arguments),
                    }
                }
            },
        },
        (None, Some(found)) => if item_id != state.upstream_item_id || found.id
            != state.public_item_id || found.call_id != state.call_id {
            Err(bad_search())
        } else {
            Ok(found.arguments)
        },
        (None, None) => Err(bad_search()),
    }
}

/// The public item of a search that is done.
pub open spec fn search_finished(
    state: ToolSearchCallStateView,
    item_id: Seq<char>,
    arrived: EventFrameView,
    call: Option<AccumulatedFunctionCallView>,
    search: Option<ToolSearchCallView>,
) -> Result<ToolSearchCallView, ExecutorErrorView> {
    match accumulated_search(state, item_id, call, search) {
        Err(e) => Err(e),
        Ok(arguments) => match crate::json::object_field(arrived.wire.rest, "item"@) {
            Some(JsonView::Object(item)) => match crate::search::raw_output_item(item) {
                Err(e) => Err(ExecutorErrorView::Tool(e)),
                Ok(public) => if public.id != state.public_item_id || public.call_id
                    != state.call_id || crate::json::settled_fields(public.arguments)
                    != crate::json::settled_fields(arguments) {
                    Err(bad_search())
                } else {
                    Ok(public)
                },
            },
            _ => Err(bad_search()),
        },
    }
}

/// The events of a call that is done, and the state after them.
pub open spec fn call_finished(
    st: TranslatorView,
    item_id: Seq<char>,
    name: Seq<char>,
    output_index: u32,
    arrived: EventFrameView,
    call: Option<AccumulatedFunctionCallView>,
    search: Option<ToolSearchCallView>,
) -> (TranslatorView, Result<Seq<EventFrameView>, ExecutorErrorView>) {
    let (known, sent) = resolved(st, item_id, name, output_index, call);
    match sent {
        Err(e) => (known, Err(e)),
        Ok(sent) => {
            let gone = TranslatorView { active: known.active.remove(output_index), ..known };
            (
                gone,
                match shape_at(known, output_index) {
                    Some(FunctionCallShapeView::PublicFunction) | None => Ok(sent.push(arrived)),
                    Some(FunctionCallShapeView::GatewayOwned) => Ok(sent),
                    Some(FunctionCallShapeView::Custom(state)) => match call {
                        None => Ok(sent),
                        Some(c) => {
                            let (after, more) = input_closed(
                                state,
                                crate::accumulator::call_arguments(c),
                            );
                            match more {
                                Err(e) => Err(e),
                                Ok(more) => Ok((sent + more).push(custom_finished(after, c))),
                            }
                        },
                    },
                    Some(FunctionCallShapeView::ToolSearch(state)) => match search_finished(
                        state,
                        item_id,
                        arrived,
                        call,
                        search,
                    ) {
                        Err(e) => Err(e),
                        Ok(public) => Ok(
                            sent.push(
                                item_event(
                                    SSEEventType::OutputItemDone,
                                    state.output_index,
                                    crate::wire_items::search_call_fields(public),
                                ),
                            ),
                        ),
                    },
                },
            )
        },
    }
}

/// Whether a place is the first from which on output must wait: that of a call which
/// the gateway runs, or of one whose name is not known.
pub open spec fn is_first_deferred(st: TranslatorView, place: u32) -> bool {
    &&& st.first_gateway_output_index == Some(place) || exists|k: u32| #[trigger]
        st.pending_unnamed.contains_key(k) && st.pending_unnamed[k].output_index == place
    &&& st.first_gateway_output_index matches Some(first) ==> place <= first
    &&& forall|k: u32| #[trigger]
        st.pending_unnamed.contains_key(k) ==> place <= st.pending_unnamed[k].output_index
}

/// The first place from which on output must wait.
pub open spec fn deferred_from(st: TranslatorView) -> Option<u32> {
    if st.first_gateway_output_index is None && st.pending_unnamed == Map::<
        u32,
        PendingFunctionCallView,
    >::empty() {
        None
    } else {
        Some(choose|place: u32| is_first_deferred(st, place))
    }
}

/// What a client sees of an upstream event, and the state after it.
pub open spec fn translated(
    st: TranslatorView,
    frame: EventFrameView,
    call: Option<AccumulatedFunctionCallView>,
    search: Option<ToolSearchCallView>,
) -> (TranslatorView, Result<Seq<EventFrameView>, ExecutorErrorView>) {
    let st = if frame.event_type is ResponseFailed || frame.event_type is ResponseIncomplete {
        TranslatorView { upstream_terminal_failure: true, ..st }
    } else {
        st
    };
    match frame.payload {
        EventPayloadView::OutputItemAdded {
            item_id,
            item_type: SSEItemType::FunctionCall,
            output_index,
            name,
            ..
        } => match name {
            Some(name) => started(st, item_id, name, output_index, Some(frame), call),
            None => buffered(st, output_index, frame),
        },
        EventPayloadView::FunctionCallArgsDelta {
            delta,
            call_id,
            item_id,
            output_index,
        } => delta_step(
            st,
            item_id,
            output_index,
            frame,
            call,
        ),
        EventPayloadView::FunctionCallArgsDone {
            arguments,
            call_id,
            item_id,
            name,
            output_index,
        } =>
        arguments_finished(st, item_id, name, output_index, call_id, frame, call),
        EventPayloadView::OutputItemDone {
            item_id,
            item_type: SSEItemType::FunctionCall,
            output_index,
            item,
        } => call_finished(
            st,
            item_id,
            crate::accumulator::or_empty(crate::json::text_of(crate::json::field(item, "name"@))),
            output_index,
            frame,
            call,
            search,
        ),
        _ => (st, Ok(seq![frame])),
    }
}

/// Whether the response of a completed stream holds a call of a withheld function,
/// from the item `i` on.
pub open spec fn holds_withheld(items: Seq<JsonView>, withheld: Set<Seq<char>>, i: int) -> bool
    decreases items.len() - i,
{
    if i < 0 || i >= items.len() {
        false
    } else if crate::json::text_of(crate::json::field(items[i], "type"@)) == Some("function_call"@) && (
    crate::json::text_of(crate::json::field(items[i], "name"@)) matches Some(name)
        && withheld.contains(name)) {
        true
    } else {
        holds_withheld(items, withheld, i + 1)
    }
}

/// The output items of an event's response.
pub open spec fn response_output(frame: EventFrameView) -> Seq<JsonView> {
    match crate::json::object_field(frame.wire.rest, "response"@) {
        Some(response) => match crate::json::field(response, "output"@) {
            Some(JsonView::Array(items)) => items,
            _ => Seq::empty(),
        },
        None => Seq::empty(),
    }
}

/// The name of the function that an event says is called.
pub open spec fn called_name(frame: EventFrameView) -> Option<Seq<char>> {
    match frame.payload {
        EventPayloadView::OutputItemAdded {
            item_type: SSEItemType::FunctionCall,
            name,
            ..
        } => name,
        EventPayloadView::FunctionCallArgsDone { name, .. } => Some(name),
        EventPayloadView::OutputItemDone { item_type: SSEItemType::FunctionCall, item, .. } =>
        crate::json::text_of(crate::json::field(item, "name"@)),
        _ => None,
    }
}

/// Whether an event calls a function whose schema is withheld.
pub open spec fn calls_withheld(st: TranslatorView, frame: EventFrameView) -> bool {
    ||| frame.event_type is ResponseCompleted && holds_withheld(
        response_output(frame),
        st.withheld_function_names,
        0,
    )
    ||| (called_name(frame) matches Some(name) && st.withheld_function_names.contains(name))
}

/// Whether the call at a place is a search.
pub open spec fn searches_at(st: TranslatorView, output_index: u32) -> bool {
    shape_at(st, output_index) matches Some(FunctionCallShapeView::ToolSearch(_))
}

/// Whether an event may wait for its call's name.
pub open spec fn may_wait(st: TranslatorView, output_index: u32, frame: EventFrameView) -> Result<
    (),
    ExecutorErrorView,
> {
    if calls_full(st, output_index) {
        Err(calls_error(st))
    } else if bytes_full(st, frame) {
        Err(bytes_error(st))
    } else {
        Ok(())
    }
}

/// Whether arguments that an event closes may be those of the search at a place.
pub open spec fn closing_valid(
    st: TranslatorView,
    frame: EventFrameView,
    arguments: Seq<char>,
    item_id: Seq<char>,
    call_id: Option<Seq<char>>,
    output_index: u32,
) -> bool {
    &&& frame.wire.output_index == Some(output_index as u64)
    &&& fits(arguments)
    &&& shape_at(st, output_index) matches Some(FunctionCallShapeView::ToolSearch(state))
        ==> done_name_fits(frame) && linked(state, item_id, call_id)
}

/// Whether an item that is done may be the search at a place.
pub open spec fn done_valid(
    st: TranslatorView,
    frame: EventFrameView,
    output_index: u32,
    item: JsonView,
) -> bool {
    match item {
        JsonView::Object(fields) => {
            &&& frame.wire.output_index == Some(output_index as u64)
            &&& crate::json::text_field(fields, "arguments"@) matches Some(arguments) && fits(
                arguments,
            )
            &&& crate::search::raw_output_item(fields) matches Ok(public) && (shape_at(
                st,
                output_index,
            ) matches Some(FunctionCallShapeView::ToolSearch(state)) ==> public.id
                == state.public_item_id && public.call_id == state.call_id)
        },
        _ => false,
    }
}

/// Whether an event may be accumulated, and the state after it was counted.
pub open spec fn admitted(
    st: TranslatorView,
    frame: EventFrameView,
    call: Option<AccumulatedFunctionCallView>,
) -> (TranslatorView, Result<(), ExecutorErrorView>) {
    if calls_withheld(st, frame) {
        (st, Err(ExecutorErrorView::Tool(crate::error::withheld_function_call())))
    } else {
        match frame.payload {
            EventPayloadView::OutputItemAdded {
                item_type: SSEItemType::FunctionCall,
                output_index,
                name: None,
                ..
            } => (st, may_wait(st, output_index, frame)),
            EventPayloadView::FunctionCallArgsDone {
                arguments,
                call_id,
                item_id,
                name,
                output_index,
            } => if st.tool_search_enabled && (name == "tool_search"@ || searches_at(st, output_index))
                && !closing_valid(st, frame, arguments, item_id, call_id, output_index) {
                (st, Err(bad_search()))
            } else {
                (st, Ok(()))
            },
            EventPayloadView::OutputItemDone {
                item_type: SSEItemType::FunctionCall,
                output_index,
                item,
                ..
            } => if st.tool_search_enabled && (crate::json::text_of(
                crate::json::field(item, "name"@),
            ) == Some("tool_search"@) || searches_at(st, output_index)) && !done_valid(
                st,
                frame,
                output_index,
                item,
            ) {
                (st, Err(bad_search()))
            } else {
                (st, Ok(()))
            },
            EventPayloadView::FunctionCallArgsDelta { delta, call_id, item_id, output_index } => {
                let more = encode_utf8(delta).len();
                match shape_at(st, output_index) {
                    None => (st, may_wait(st, output_index, frame)),
                    Some(FunctionCallShapeView::Custom(_)) => {
                        let current = match call {
                            Some(c) => encode_utf8(crate::accumulator::call_arguments(c)).len(),
                            None => 0,
                        };
                        if current + more > MAX_PENDING_FUNCTION_BYTES {
                            (st, Err(size_error()))
                        } else {
                            (st, Ok(()))
                        }
                    },
                    Some(FunctionCallShapeView::ToolSearch(state)) => if frame.wire.output_index
                        != Some(output_index as u64) || !linked(state, item_id, call_id)
                        || state.accounted_argument_bytes + more > MAX_PENDING_FUNCTION_BYTES {
                        (st, Err(bad_search()))
                    } else {
                        (
                            with_shape(
                                st,
                                output_index,
                                FunctionCallShapeView::ToolSearch(
                                    ToolSearchCallStateView {
                                        accounted_argument_bytes: (state.accounted_argument_bytes
                                            + more) as usize,
                                        ..state
                                    },
                                ),
                            ),
                            Ok(()),
                        )
                    },
                    _ => (st, Ok(())),
                }
            },
            _ => (st, Ok(())),
        }
    }
}

/// Whether any call that is streamed is a search.
pub open spec fn any_search(st: TranslatorView) -> bool {
    exists|k: u32| #[trigger] searches_at(st, k)
}

/// Whether an identity is that of a search, or of a call that may be one, which did not
/// finish.
pub open spec fn unfinished_search(st: TranslatorView, id: Seq<char>) -> bool {
    ||| exists|k: u32| #[trigger] search_id_at(st, k) == Some(id)
    ||| st.tool_search_enabled && exists|k: u32, i: int| #[trigger] waiting_id(st, k, i) == Some(id)
}

/// The upstream identity of the search at a place.
pub open spec fn search_id_at(st: TranslatorView, k: u32) -> Option<Seq<char>> {
    match shape_at(st, k) {
        Some(FunctionCallShapeView::ToolSearch(state)) => Some(state.upstream_item_id),
        _ => None,
    }
}

/// The identity that a kept event adds, where it has one.
pub open spec fn waiting_id(st: TranslatorView, k: u32, i: int) -> Option<Seq<char>> {
    if st.pending_unnamed.contains_key(k) && 0 <= i < st.pending_unnamed[k].frames.len() {
        frame_id(st.pending_unnamed[k].frames[i])
    } else {
        None
    }
}

/// The identity of the item that an event adds, where it has one.
pub open spec fn frame_id(frame: EventFrameView) -> Option<Seq<char>> {
    match frame.payload {
        EventPayloadView::OutputItemAdded { item_id, .. } => if item_id.len() > 0 {
            Some(item_id)
        } else {
            None
        },
        _ => None,
    }
}

impl FunctionSseTranslator {
    /// A translator for a request's tools.
    pub fn new(tool_types: Table<String, ToolType>) -> (translator: FunctionSseTranslator)
        ensures
            translator@ == (TranslatorView {
                tool_types: tool_types@,
                active: Map::empty(),
                pending_unnamed: Map::empty(),
                pending_bytes: 0,
                first_gateway_output_index: None,
                search_call_seen: false,
                tool_search_enabled: crate::accumulator::is_search_name(
                    tool_types@,
                    "tool_search"@,
                ),
                withheld_function_names: Set::empty(),
                upstream_terminal_failure: false,
            }),
    {
        let name = "tool_search".to_owned();
        let tool_search_enabled = match tool_types.get(&name) {
            Some(t) => *t == ToolType::ToolSearch,
            None => false,
        };
        FunctionSseTranslator {
            tool_types,
            active: Table::new(),
            pending_unnamed: Table::new(),
            pending_bytes: 0,
            first_gateway_output_index: None,
            search_call_seen: false,
            tool_search_enabled,
            withheld_function_names: Keys::new(),
            upstream_terminal_failure: false,
        }
    }

    /// Makes the names known of the functions whose schemas are withheld.
    pub fn with_withheld_function_names(
        self,
        names: &Keys<String>,
    ) -> (translator: FunctionSseTranslator)
        ensures
            translator@ == (TranslatorView { withheld_function_names: names@, ..self@ }),
    {
        let mut translator = self;
        translator.withheld_function_names = names.copy();
        translator
    }

    fn tool_type(&self, name: &str) -> (tool_type: ToolType)
        ensures
            tool_type == type_of(self@, name@),
    {
        match self.tool_types.get(&name.to_owned()) {
            Some(t) => *t,
            None => ToolType::Function,
        }
    }

    fn shape(&self, output_index: u32) -> (shape: Option<FunctionCallShape>)
        ensures
            crate::data::opt_view(shape) == shape_at(self@, output_index),
    {
        match self.active.get(&output_index) {
            Some(shape) => Some(shape.copied()),
            None => None,
        }
    }

    fn pending_limit_error(&self, message: &str) -> (error: ExecutorError)
        ensures
            error@ == limit_error(self@, message@),
    {
        if self.tool_search_enabled {
            search_error()
        } else {
            ExecutorError::StreamError(message.to_owned())
        }
    }

    fn has_too_many_calls(&self, output_index: u32) -> (yes: bool)
        ensures
            yes == calls_full(self@, output_index),
    {
        !self.pending_unnamed.contains_key(&output_index) && self.pending_unnamed.len()
            >= MAX_PENDING_FUNCTION_CALLS
    }

    /// Keeps an event until its call's name is known.
    fn buffer_unnamed(&mut self, output_index: u32, frame: EventFrame) -> (out: Result<
        Vec<EventFrame>,
        ExecutorError,
    >)
        ensures
            final(self)@ == buffered(old(self)@, output_index, frame@).0,
            frames_outcome(out) == buffered(old(self)@, output_index, frame@).1,
    {
        let ghost start = self@;
        let bytes: usize = frame.wire.json_bytes();
        if self.pending_bytes.saturating_add(bytes) > MAX_PENDING_FUNCTION_BYTES {
            return Err(
                self.pending_limit_error(
                    "unnamed function-call SSE exceeded 262144 buffered bytes",
                ),
            );
        }
        if self.has_too_many_calls(output_index) {
            return Err(
                self.pending_limit_error("unnamed function-call SSE exceeded 128 pending calls"),
            );
        }
        let mut waiting = match self.pending_unnamed.get(&output_index) {
            Some(w) => w.copied(),
            None => {
                let w = PendingFunctionCall { output_index, frames: Vec::new(), bytes: 0 };
                proof {
                    assert(w@.frames =~= Seq::empty());
                }
                w
            },
        };
        proof {
            crate::data::views_push(waiting.frames@, frame);
        }
        waiting.frames.push(frame);
        waiting.bytes = waiting.bytes.saturating_add(bytes);
        self.pending_unnamed.insert(output_index, waiting);
        self.pending_bytes = self.pending_bytes + bytes;
        let frames: Vec<EventFrame> = Vec::new();
        proof {
            assert(crate::data::views(frames@) =~= Seq::empty());
            assert(self@ =~= buffered(start, output_index, frame@).0);
        }
        Ok(frames)
    }

    /// Takes the events out that wait at a place.
    fn take_pending(&mut self, output_index: u32) -> (frames: Vec<EventFrame>)
        ensures
            final(self)@ == pending_taken(old(self)@, output_index),
            crate::data::views(frames@) == pending_frames(old(self)@, output_index),
    {
        let ghost start = self@;
        match self.pending_unnamed.remove(&output_index) {
            Some(waiting) => {
                self.pending_bytes = self.pending_bytes.saturating_sub(waiting.bytes);
                waiting.frames
            },
            None => {
                let frames: Vec<EventFrame> = Vec::new();
                proof {
                    assert(crate::data::views(frames@) =~= Seq::empty());
                    assert(self@ =~= start);
                }
                frames
            },
        }
    }

    /// The events of a call that begins.
    pub fn start_call(
        &mut self,
        item_id: &str,
        name: &str,
        output_index: u32,
        arrived: Option<EventFrame>,
        call: Option<&AccumulatedFunctionCall>,
    ) -> (out: Result<Vec<EventFrame>, ExecutorError>)
        ensures
            final(self)@ == started(
                old(self)@,
                item_id@,
                name@,
                output_index,
                crate::data::opt_view(arrived),
                call_view(call),
            ).0,
            frames_outcome(out) == started(
                old(self)@,
                item_id@,
                name@,
                output_index,
                crate::data::opt_view(arrived),
                call_view(call),
            ).1,
    {
        let mut frames: Vec<EventFrame> = Vec::new();
        proof {
            assert(crate::data::views(frames@) =~= Seq::empty());
        }
        match self.tool_type(name) {
            ToolType::Custom => {
                let public_item_id = match call {
                    Some(c) => crate::custom::public_item_id(c.item.id.as_str()),
                    None => crate::custom::public_item_id(item_id),
                };
                let state = CustomCallState {
                    public_item_id,
                    output_index,
                    emitted_input: String::new(),
                    input_start: None,
                    input_cursor: 0,
                    input_done: false,
                };
                self.active.insert(output_index, FunctionCallShape::Custom(state));
                if let Some(c) = call {
                    let frame = custom_added_frame(c);
                    frames.push(frame);
                    proof {
                        assert(crate::data::views(frames@) =~= seq![frame@]);
                    }
                }
                Ok(frames)
            },
            ToolType::Mcp | ToolType::WebSearch | ToolType::FileSearch | ToolType::CodeInterpreter => {
                let earlier = match self.first_gateway_output_index {
                    Some(first) => first <= output_index,
                    None => false,
                };
                if !earlier {
                    self.first_gateway_output_index = Some(output_index);
                }
                self.active.insert(output_index, FunctionCallShape::GatewayOwned);
                Ok(frames)
            },
            ToolType::ToolSearch => {
                if self.search_call_seen || self.active.contains_key(&output_index)
                    || self.pending_unnamed.contains_key(&output_index) {
                    return Err(search_error());
                }
                let c = match call {
                    Some(c) => c,
                    None => {
                        return Err(search_error());
                    },
                };
                if c.item.namespace.is_some() {
                    return Err(search_error());
                }
                let o = match &arrived {
                    Some(o) => o,
                    None => {
                        return Err(search_error());
                    },
                };
                if let Err(e) = validate_wire_output_index(o, output_index) {
                    return Err(e);
                }
                let item = match public_added_item(item_id, c.item.call_id.as_str()) {
                    Ok(item) => item,
                    Err(e) => {
                        return Err(ExecutorError::Tool(e));
                    },
                };
                let state = ToolSearchCallState {
                    upstream_item_id: item_id.to_owned(),
                    public_item_id: crate::search::public_item_id(item_id),
                    call_id: c.item.call_id.clone(),
                    output_index,
                    accounted_argument_bytes: byte_len(c.arguments()),
                    arguments_done: false,
                };
                self.search_call_seen = true;
                self.active.insert(output_index, FunctionCallShape::ToolSearch(state));
                let frame = make_item_event(SSEEventType::OutputItemAdded, output_index, item);
                frames.push(frame);
                proof {
                    assert(crate::data::views(frames@) =~= seq![frame@]);
                }
                Ok(frames)
            },
            ToolType::Function | ToolType::CodexNamespace => {
                self.active.insert(output_index, FunctionCallShape::PublicFunction);
                if let Some(o) = arrived {
                    frames.push(o);
                    proof {
                        assert(crate::data::views(frames@) =~= seq![o@]);
                    }
                }
                Ok(frames)
            },
        }
    }

    /// The events of more arguments.
    fn translate_delta(
        &mut self,
        item_id: &str,
        output_index: u32,
        arrived: &EventFrame,
        call: Option<&AccumulatedFunctionCall>,
    ) -> (out: Result<Vec<EventFrame>, ExecutorError>)
        ensures
            final(self)@ == delta_step(
                old(self)@,
                item_id@,
                output_index,
                arrived@,
                call_view(call),
            ).0,
            frames_outcome(out) == delta_step(
                old(self)@,
                item_id@,
                output_index,
                arrived@,
                call_view(call),
            ).1,
    {
        let mut frames: Vec<EventFrame> = Vec::new();
        proof {
            assert(crate::data::views(frames@) =~= Seq::empty());
        }
        match self.shape(output_index) {
            Some(FunctionCallShape::PublicFunction) => {
                let frame = arrived.copied();
                frames.push(frame);
                proof {
                    assert(crate::data::views(frames@) =~= seq![frame@]);
                }
                Ok(frames)
            },
            Some(FunctionCallShape::GatewayOwned) => Ok(frames),
            Some(FunctionCallShape::Custom(state)) => match call {
                Some(c) => {
                    let mut state = state;
                    let out = incremental_custom_delta(&mut state, c.arguments());
                    self.active.insert(output_index, FunctionCallShape::Custom(state));
                    out
                },
                None => Ok(frames),
            },
            Some(FunctionCallShape::ToolSearch(state)) => {
                let call_id = match &arrived.payload {
                    EventPayload::FunctionCallArgsDelta { call_id, .. } => crate::data::copy_opt(
                        call_id,
                    ),
                    _ => None,
                };
                match validate_stream_linkage(&state, item_id, &call_id) {
                    Ok(_) => Ok(frames),
                    Err(e) => Err(e),
                }
            },
            None => self.buffer_unnamed(output_index, arrived.copied()),
        }
    }

    /// The events of a call whose name is known now.
    fn resolve_pending(
        &mut self,
        item_id: &str,
        name: &str,
        output_index: u32,
        call: Option<&AccumulatedFunctionCall>,
    ) -> (out: Result<Vec<EventFrame>, ExecutorError>)
        ensures
            final(self)@ == resolved(old(self)@, item_id@, name@, output_index, call_view(call)).0,
            frames_outcome(out) == resolved(
                old(self)@,
                item_id@,
                name@,
                output_index,
                call_view(call),
            ).1,
    {
        let ghost start = self@;
        if self.active.contains_key(&output_index) {
            let frames: Vec<EventFrame> = Vec::new();
            proof {
                assert(crate::data::views(frames@) =~= Seq::empty());
            }
            return Ok(frames);
        }
        let searching = self.tool_type(name) == ToolType::ToolSearch;
        let pending = self.take_pending(output_index);
        let ghost all = crate::data::views(pending@);
        let mut count: usize = 0;
        let mut first: Option<usize> = None;
        let total: usize = pending.len();
        let mut i: usize = total;
        proof {
            added_count_from_end(all, all.len() as int);
        }
        while i > 0
            invariant
                i <= pending@.len(),
                all == crate::data::views(pending@),
                count + i <= total == pending@.len(),
                added_count(all, all.len() as int) == added_count(all, i as int) + count,
                match first {
                    Some(k) => k < pending@.len() && first_added(all, i as int) == Some(
                        all[k as int],
                    ) && added_id(all[k as int]) is Some,
                    None => first_added(all, i as int) is None,
                },
            decreases i,
        {
            i = i - 1;
            let adds = match &pending[i].payload {
                EventPayload::OutputItemAdded { item_type: SSEItemType::FunctionCall, .. } => true,
                _ => false,
            };
            proof {
                assert(all[i as int] == pending@[i as int]@);
                assert(adds == (added_id(all[i as int]) is Some));
            }
            if adds {
                count = count + 1;
                first = Some(i);
            }
        }
        if searching && count != 1 {
            return Err(search_error());
        }
        let arrived = match first {
            Some(k) => Some(pending[k].copied()),
            None => None,
        };
        let start_id = match &arrived {
            Some(o) => match &o.payload {
                EventPayload::OutputItemAdded { item_id, .. } => item_id.clone(),
                _ => item_id.to_owned(),
            },
            None => item_id.to_owned(),
        };
        let mut sent = match self.start_call(
            start_id.as_str(),
            name,
            output_index,
            arrived,
            call,
        ) {
            Ok(frames) => frames,
            Err(e) => {
                return Err(e);
            },
        };
        let ghost begun = self@;
        let ghost first_sent = crate::data::views(sent@);
        let mut j: usize = 0;
        while j < pending.len()
            invariant
                j <= pending@.len(),
                start == old(self)@,
                all == crate::data::views(pending@),
                replayed(all, begun, first_sent, call_view(call), j as int) == (
                    self@,
                    Ok::<_, ExecutorErrorView>(crate::data::views(sent@)),
                ),
                resolved(start, item_id@, name@, output_index, call_view(call)) == replayed(
                    all,
                    begun,
                    first_sent,
                    call_view(call),
                    all.len() as int,
                ),
            decreases pending@.len() - j,
        {
            proof {
                assert(all[j as int] == pending@[j as int]@);
            }
            if let EventPayload::FunctionCallArgsDelta { item_id: delta_id, output_index: place, .. } =
                &pending[j].payload {
                match self.translate_delta(delta_id.as_str(), *place, &pending[j], call) {
                    Ok(more) => {
                        append_frames(&mut sent, more);
                    },
                    Err(e) => {
                        proof {
                            replayed_stops(
                                all,
                                begun,
                                first_sent,
                                call_view(call),
                                j + 1,
                                all.len() as int,
                            );
                        }
                        return Err(e);
                    },
                }
            }
            j = j + 1;
        }
        Ok(sent)
    }

    /// The events of closed arguments.
    fn finish_arguments(
        &mut self,
        item_id: &str,
        name: &str,
        output_index: u32,
        event_call_id: &Option<String>,
        arrived: &EventFrame,
        call: Option<&AccumulatedFunctionCall>,
    ) -> (out: Result<Vec<EventFrame>, ExecutorError>)
        ensures
            final(self)@ == arguments_finished(
                old(self)@,
                item_id@,
                name@,
                output_index,
                crate::data::opt_view(*event_call_id),
                arrived@,
                call_view(call),
            ).0,
            frames_outcome(out) == arguments_finished(
                old(self)@,
                item_id@,
                name@,
                output_index,
                crate::data::opt_view(*event_call_id),
                arrived@,
                call_view(call),
            ).1,
    {
        let mut sent = match self.resolve_pending(item_id, name, output_index, call) {
            Ok(frames) => frames,
            Err(e) => {
                return Err(e);
            },
        };
        match self.shape(output_index) {
            Some(FunctionCallShape::PublicFunction) | None => {
                let frame = arrived.copied();
                proof {
                    crate::data::views_push(sent@, frame);
                }
                sent.push(frame);
                Ok(sent)
            },
            Some(FunctionCallShape::GatewayOwned) => Ok(sent),
            Some(FunctionCallShape::Custom(state)) => match call {
                Some(c) => {
                    let mut state = state;
                    let out = finish_custom_input(&mut state, c.arguments());
                    self.active.insert(output_index, FunctionCallShape::Custom(state));
                    match out {
                        Ok(more) => {
                            append_frames(&mut sent, more);
                            Ok(sent)
                        },
                        Err(e) => Err(e),
                    }
                },
                None => Ok(sent),
            },
            Some(FunctionCallShape::ToolSearch(state)) => {
                match close_search_arguments(&state, item_id, event_call_id, arrived, call) {
                    Ok(_) => {
                        let mut state = state;
                        state.arguments_done = true;
                        self.active.insert(output_index, FunctionCallShape::ToolSearch(state));
                        Ok(sent)
                    },
                    Err(e) => Err(e),
                }
            },
        }
    }

    /// The events of a call that is done.
    fn finish_call(
        &mut self,
        item_id: &str,
        name: &str,
        output_index: u32,
        arrived: &EventFrame,
        call: Option<&AccumulatedFunctionCall>,
        search: Option<&ToolSearchCall>,
    ) -> (out: Result<Vec<EventFrame>, ExecutorError>)
        ensures
            final(self)@ == call_finished(
                old(self)@,
                item_id@,
                name@,
                output_index,
                arrived@,
                call_view(call),
                search_view(search),
            ).0,
            frames_outcome(out) == call_finished(
                old(self)@,
                item_id@,
                name@,
                output_index,
                arrived@,
                call_view(call),
                search_view(search),
            ).1,
    {
        let mut sent = match self.resolve_pending(item_id, name, output_index, call) {
            Ok(frames) => frames,
            Err(e) => {
                return Err(e);
            },
        };
        match self.active.remove(&output_index) {
            Some(FunctionCallShape::PublicFunction) | None => {
                let frame = arrived.copied();
                proof {
                    crate::data::views_push(sent@, frame);
                }
                sent.push(frame);
                Ok(sent)
            },
            Some(FunctionCallShape::GatewayOwned) => Ok(sent),
            Some(FunctionCallShape::Custom(state)) => match call {
                Some(c) => {
                    let mut state = state;
                    match finish_custom_input(&mut state, c.arguments()) {
                        Ok(more) => {
                            append_frames(&mut sent, more);
                            let frame = custom_done_frame(&state, c);
                            proof {
                                crate::data::views_push(sent@, frame);
                            }
                            sent.push(frame);
                            Ok(sent)
                        },
                        Err(e) => Err(e),
                    }
                },
                None => Ok(sent),
            },
            Some(FunctionCallShape::ToolSearch(state)) => {
                match finish_search(&state, item_id, arrived, call, search) {
                    Ok(public) => {
                        let frame = make_item_event(
                            SSEEventType::OutputItemDone,
                            state.output_index,
                            search_call_to_fields(&public),
                        );
                        proof {
                            crate::data::views_push(sent@, frame);
                        }
                        sent.push(frame);
                        Ok(sent)
                    },
                    Err(e) => Err(e),
                }
            },
        }
    }

    /// The first place from which on output must wait.
    fn defer_from_output_index(&self) -> (place: Option<u32>)
        ensures
            place == deferred_from(self@),
    {
        let mut least: Option<u32> = self.first_gateway_output_index;
        let n: usize = self.pending_unnamed.len();
        let mut i: usize = 0;
        let ghost keys = self.pending_unnamed.keys();
        while i < n
            invariant
                i <= n == keys.len(),
                keys == self.pending_unnamed.keys(),
                forall|k: u32| self.pending_unnamed@.contains_key(k) <==> keys.contains(k),
                match least {
                    Some(p) => {
                        &&& self.first_gateway_output_index == Some(p) || exists|k: u32|
                            #[trigger] self.pending_unnamed@.contains_key(k)
                                && self.pending_unnamed@[k].output_index == p
                        &&& self.first_gateway_output_index matches Some(first) ==> p <= first
                        &&& forall|j: int|
                            0 <= j < i ==> p <= self.pending_unnamed@[#[trigger] keys[j]].output_index
                    },
                    None => i == 0 && self.first_gateway_output_index is None,
                },
            decreases n - i,
        {
            let waiting = self.pending_unnamed.value_at(i);
            let place: u32 = waiting.output_index;
            let closer = match least {
                Some(p) => place < p,
                None => true,
            };
            if closer {
                least = Some(place);
            }
            i = i + 1;
        }
        proof {
            let st = self@;
            match least {
                Some(p) => {
                    assert(is_first_deferred(st, p)) by {
                        assert forall|k: u32| #[trigger]
                            st.pending_unnamed.contains_key(k) implies p
                            <= st.pending_unnamed[k].output_index by {
                            assert(keys.contains(k));
                            let j = choose|j: int| 0 <= j < keys.len() && keys[j] == k;
                            assert(p <= self.pending_unnamed@[keys[j]].output_index);
                        }
                    }
                    let q = choose|place: u32| is_first_deferred(st, place);
                    assert(is_first_deferred(st, q));
                    assert(q == p);
                    if st.first_gateway_output_index is None {
                        let k = choose|k: u32| #[trigger]
                            st.pending_unnamed.contains_key(k) && st.pending_unnamed[k].output_index
                                == p;
                        assert(st.pending_unnamed.contains_key(k));
                        assert(!Map::<u32, PendingFunctionCallView>::empty().contains_key(k));
                    }
                },
                None => {
                    assert(st.pending_unnamed =~= Map::<u32, PendingFunctionCallView>::empty());
                },
            }
        }
        least
    }

    /// What a client sees of an upstream event.
    pub fn translate(
        &mut self,
        frame: &EventFrame,
        call: Option<&AccumulatedFunctionCall>,
        search: Option<&ToolSearchCall>,
    ) -> (out: Result<FunctionSseTranslation, ExecutorError>)
        ensures
            final(self)@ == translated(old(self)@, frame@, call_view(call), search_view(search)).0,
            match translated(old(self)@, frame@, call_view(call), search_view(search)).1 {
                Ok(frames) => out matches Ok(t) && t@ == (FunctionSseTranslationView {
                    frames,
                    defer_from_output_index: deferred_from(final(self)@),
                }),
                Err(e) => out matches Err(x) && x@ == e,
            },
    {
        match frame.event_type {
            SSEEventType::ResponseFailed | SSEEventType::ResponseIncomplete => {
                self.upstream_terminal_failure = true;
            },
            _ => {},
        }
        let out = match &frame.payload {
            EventPayload::OutputItemAdded {
                item_id,
                item_type: SSEItemType::FunctionCall,
                output_index,
                name,
                ..
            } => match name {
                Some(name) => self.start_call(
                    item_id.as_str(),
                    name.as_str(),
                    *output_index,
                    Some(frame.copied()),
                    call,
                ),
                None => self.buffer_unnamed(*output_index, frame.copied()),
            },
            EventPayload::FunctionCallArgsDelta {
                item_id,
                output_index,
                ..
            } => self.translate_delta(
                item_id.as_str(),
                *output_index,
                frame,
                call,
            ),
            EventPayload::FunctionCallArgsDone { item_id, call_id, name, output_index, .. } =>
            self.finish_arguments(
                item_id.as_str(),
                name.as_str(),
                *output_index,
                call_id,
                frame,
                call,
            ),
            EventPayload::OutputItemDone {
                item_id,
                item_type: SSEItemType::FunctionCall,
                output_index,
                item,
            } => {
                let name = match item.get_str("name") {
                    Some(name) => name.to_owned(),
                    None => String::new(),
                };
                self.finish_call(
                    item_id.as_str(),
                    name.as_str(),
                    *output_index,
                    frame,
                    call,
                    search,
                )
            },
            _ => {
                let passed = frame.copied();
                let frames = vec![passed];
                proof {
                    assert(crate::data::views(frames@) =~= seq![passed@]);
                }
                Ok(frames)
            },
        };
        match out {
            Ok(frames) => Ok(
                FunctionSseTranslation {
                    frames,
                    defer_from_output_index: self.defer_from_output_index(),
                },
            ),
            Err(e) => Err(e),
        }
    }

    /// Refuses a stream that ended before its search was done.
    pub fn finish(&self) -> (out: Result<(), ExecutorError>)
        ensures
            out is Err == (!self@.upstream_terminal_failure && (any_search(self@) || (
            self@.tool_search_enabled && self@.pending_unnamed != Map::<
                u32,
                PendingFunctionCallView,
            >::empty()))),
            out matches Err(e) ==> e@ == bad_search(),
    {
        if !self.upstream_terminal_failure && (self.has_search() || (self.tool_search_enabled
            && !self.pending_unnamed.is_empty())) {
            return Err(search_error());
        }
        Ok(())
    }

    fn has_search(&self) -> (yes: bool)
        ensures
            yes == any_search(self@),
    {
        let n: usize = self.active.len();
        let ghost keys = self.active.keys();
        let mut i: usize = 0;
        while i < n
            invariant
                i <= n == keys.len(),
                keys == self.active.keys(),
                forall|k: u32| self.active@.contains_key(k) <==> keys.contains(k),
                forall|j: int| 0 <= j < i ==> !searches_at(self@, #[trigger] keys[j]),
            decreases n - i,
        {
            if let FunctionCallShape::ToolSearch(_) = self.active.value_at(i) {
                proof {
                    assert(searches_at(self@, keys[i as int]));
                }
                return true;
            }
            i = i + 1;
        }
        proof {
            assert forall|k: u32| !#[trigger] searches_at(self@, k) by {
                if self.active@.contains_key(k) {
                    assert(keys.contains(k));
                    let j = choose|j: int| 0 <= j < keys.len() && keys[j] == k;
                    assert(!searches_at(self@, keys[j]));
                }
            }
        }
        false
    }

    /// The identities of the searches, and of the calls that may be searches, which did
    /// not finish.
    pub fn unfinished_search_item_ids(&self) -> (ids: Keys<String>)
        ensures
            forall|id: Seq<char>| ids@.contains(id) <==> #[trigger] unfinished_search(self@, id),
    {
        let mut ids: Keys<String> = Keys::new();
        let n: usize = self.active.len();
        let ghost keys = self.active.keys();
        let ghost st = self@;
        let mut i: usize = 0;
        while i < n
            invariant
                i <= n == keys.len(),
                keys == self.active.keys(),
                st == self@,
                forall|id: Seq<char>| #[trigger]
                    ids@.contains(id) <==> exists|j: int|
                        0 <= j < i && search_id_at(st, #[trigger] keys[j]) == Some(id),
            decreases n - i,
        {
            let ghost before = ids@;
            if let FunctionCallShape::ToolSearch(state) = self.active.value_at(i) {
                ids.insert(state.upstream_item_id.clone());
            }
            proof {
                assert forall|id: Seq<char>| #[trigger] ids@.contains(id) implies exists|j: int|
                    0 <= j < i + 1 && search_id_at(st, #[trigger] keys[j]) == Some(id) by {
                    if before.contains(id) {
                        let j = choose|j: int|
                            0 <= j < i && search_id_at(st, #[trigger] keys[j]) == Some(id);
                        assert(search_id_at(st, keys[j]) == Some(id));
                    } else {
                        assert(search_id_at(st, keys[i as int]) == Some(id));
                    }
                }
                assert forall|id: Seq<char>|
                    (exists|j: int|
                        0 <= j < i + 1 && search_id_at(st, #[trigger] keys[j]) == Some(
                            id,
                        )) implies #[trigger] ids@.contains(id) by {
                    let j = choose|j: int|
                        0 <= j < i + 1 && search_id_at(st, #[trigger] keys[j]) == Some(id);
                    if j < i {
                        assert(before.contains(id));
                    }
                }
            }
            i = i + 1;
        }
        proof {
            assert forall|id: Seq<char>| #[trigger] ids@.contains(id) <==> (exists|k: u32|
                #[trigger] search_id_at(st, k) == Some(id)) by {
                if ids@.contains(id) {
                    let j = choose|j: int|
                        0 <= j < keys.len() && search_id_at(st, #[trigger] keys[j]) == Some(id);
                    assert(search_id_at(st, keys[j]) == Some(id));
                }
                if exists|k: u32| #[trigger] search_id_at(st, k) == Some(id) {
                    let k = choose|k: u32| #[trigger] search_id_at(st, k) == Some(id);
                    assert(self.active@.contains_key(k));
                    assert(keys.contains(k));
                    let j = choose|j: int| 0 <= j < keys.len() && keys[j] == k;
                    assert(search_id_at(st, keys[j]) == Some(id));
                }
            }
        }
        if self.tool_search_enabled {
            self.add_waiting_ids(&mut ids);
        }
        ids
    }

    fn add_waiting_ids(&self, ids: &mut Keys<String>)
        ensures
            forall|id: Seq<char>| #[trigger]
                final(ids)@.contains(id) <==> old(ids)@.contains(id) || exists|k: u32, i: int|
                    #[trigger] waiting_id(self@, k, i) == Some(id),
    {
        let n: usize = self.pending_unnamed.len();
        let ghost keys = self.pending_unnamed.keys();
        let ghost st = self@;
        let ghost start = ids@;
        let mut p: usize = 0;
        while p < n
            invariant
                p <= n == keys.len(),
                keys == self.pending_unnamed.keys(),
                st == self@,
                forall|k: u32| st.pending_unnamed.contains_key(k) <==> keys.contains(k),
                forall|id: Seq<char>| #[trigger]
                    ids@.contains(id) <==> start.contains(id) || exists|j: int, i: int|
                        0 <= j < p && #[trigger] waiting_id(st, keys[j], i) == Some(id),
            decreases n - p,
        {
            let ghost before = ids@;
            let waiting = self.pending_unnamed.value_at(p);
            let ghost key = keys[p as int];
            let mut f: usize = 0;
            while f < waiting.frames.len()
                invariant
                    f <= waiting.frames@.len(),
                    st.pending_unnamed.contains_key(key),
                    waiting@ == st.pending_unnamed[key],
                    forall|id: Seq<char>| #[trigger]
                        ids@.contains(id) <==> before.contains(id) || exists|i: int|
                            0 <= i < f && #[trigger] waiting_id(st, key, i) == Some(id),
                decreases waiting.frames@.len() - f,
            {
                let ghost inner = ids@;
                proof {
                    assert(waiting@.frames[f as int] == waiting.frames@[f as int]@);
                }
                if let EventPayload::OutputItemAdded { item_id, .. } = &waiting.frames[f].payload {
                    if !item_id.as_str().is_empty() {
                        ids.insert(item_id.clone());
                        proof {
                            assert(waiting_id(st, key, f as int) == Some(item_id@));
                        }
                    }
                }
                proof {
                    assert forall|id: Seq<char>| #[trigger] ids@.contains(id) implies before.contains(
                        id,
                    ) || exists|i: int|
                        0 <= i < f + 1 && #[trigger] waiting_id(st, key, i) == Some(id) by {
                        if inner.contains(id) {
                            if !before.contains(id) {
                                let i = choose|i: int|
                                    0 <= i < f && #[trigger] waiting_id(st, key, i) == Some(id);
                                assert(waiting_id(st, key, i) == Some(id));
                            }
                        } else {
                            assert(waiting_id(st, key, f as int) == Some(id));
                        }
                    }
                    assert forall|id: Seq<char>|
                        before.contains(id) || (exists|i: int|
                            0 <= i < f + 1 && #[trigger] waiting_id(st, key, i) == Some(
                                id,
                            )) implies #[trigger] ids@.contains(id) by {
                        if !before.contains(id) {
                            let i = choose|i: int|
                                0 <= i < f + 1 && #[trigger] waiting_id(st, key, i) == Some(id);
                            if i < f {
                                assert(inner.contains(id));
                            }
                        }
                    }
                }
                f = f + 1;
            }
            proof {
                assert forall|id: Seq<char>| #[trigger] ids@.contains(id) implies start.contains(id)
                    || exists|j: int, i: int|
                    0 <= j < p + 1 && #[trigger] waiting_id(st, keys[j], i) == Some(id) by {
                    if before.contains(id) {
                        if !start.contains(id) {
                            let (j, i) = choose|j: int, i: int|
                                0 <= j < p && #[trigger] waiting_id(st, keys[j], i) == Some(id);
                            assert(waiting_id(st, keys[j], i) == Some(id));
                        }
                    } else {
                        let i = choose|i: int|
                            0 <= i < waiting.frames@.len() && #[trigger] waiting_id(st, key, i)
                                == Some(id);
                        assert(waiting_id(st, keys[p as int], i) == Some(id));
                    }
                }
                assert forall|id: Seq<char>|
                    start.contains(id) || (exists|j: int, i: int|
                        0 <= j < p + 1 && #[trigger] waiting_id(st, keys[j], i) == Some(
                            id,
                        )) implies #[trigger] ids@.contains(id) by {
                    if !start.contains(id) {
                        let (j, i) = choose|j: int, i: int|
                            0 <= j < p + 1 && #[trigger] waiting_id(st, keys[j], i) == Some(id);
                        if j < p {
                            assert(before.contains(id));
                        } else {
                            assert(waiting_id(st, key, i) == Some(id));
                        }
                    } else {
                        assert(before.contains(id));
                    }
                }
            }
            p = p + 1;
        }
        proof {
            assert forall|id: Seq<char>| #[trigger] ids@.contains(id) <==> start.contains(id)
                || exists|k: u32, i: int| #[trigger] waiting_id(st, k, i) == Some(id) by {
                if ids@.contains(id) && !start.contains(id) {
                    let (j, i) = choose|j: int, i: int|
                        0 <= j < keys.len() && #[trigger] waiting_id(st, keys[j], i) == Some(id);
                    assert(waiting_id(st, keys[j], i) == Some(id));
                }
                if exists|k: u32, i: int| #[trigger] waiting_id(st, k, i) == Some(id) {
                    let (k, i) = choose|k: u32, i: int| #[trigger] waiting_id(st, k, i) == Some(id);
                    assert(keys.contains(k));
                    let j = choose|j: int| 0 <= j < keys.len() && keys[j] == k;
                    assert(waiting_id(st, keys[j], i) == Some(id));
                }
            }
        }
    }

    /// Refuses an event that calls a function whose schema is withheld.
    fn validate_withheld_function_names(&self, frame: &EventFrame) -> (out: Result<
        (),
        ExecutorError,
    >)
        ensures
            out is Err == calls_withheld(self@, frame@),
            out matches Err(e) ==> e@ == ExecutorErrorView::Tool(
                crate::error::withheld_function_call(),
            ),
    {
        let terminal = frame.event_type == SSEEventType::ResponseCompleted
            && self.response_holds_withheld(frame);
        let name: Option<String> = match &frame.payload {
            EventPayload::OutputItemAdded { item_type: SSEItemType::FunctionCall, name, .. } =>
            crate::data::copy_opt(name),
            EventPayload::FunctionCallArgsDone { name, .. } => Some(name.clone()),
            EventPayload::OutputItemDone { item_type: SSEItemType::FunctionCall, item, .. } =>
            match item.get_str("name") {
                Some(n) => Some(n.to_owned()),
                None => None,
            },
            _ => None,
        };
        let named = match name {
            Some(n) => self.withheld_function_names.contains(&n),
            None => false,
        };
        if terminal || named {
            Err(ExecutorError::Tool(invalid_upstream_withheld_function_call()))
        } else {
            Ok(())
        }
    }

    fn response_holds_withheld(&self, frame: &EventFrame) -> (yes: bool)
        ensures
            yes == holds_withheld(response_output(frame@), self@.withheld_function_names, 0),
    {
        let response = match frame.wire.rest.get("response") {
            Some(r) => r,
            None => {
                return false;
            },
        };
        let items = match response.get("output") {
            Some(Json::Array(items)) => items,
            _ => {
                return false;
            },
        };
        let ghost all = response_output(frame@);
        let mut i: usize = 0;
        while i < items.len()
            invariant
                i <= items@.len() == all.len(),
                all == response_output(frame@),
                forall|j: int| 0 <= j < items@.len() ==> #[trigger] all[j] == items@[j]@,
                holds_withheld(all, self@.withheld_function_names, 0) == holds_withheld(
                    all,
                    self@.withheld_function_names,
                    i as int,
                ),
            decreases items@.len() - i,
        {
            proof {
                assert(all[i as int] == items@[i as int]@);
            }
            if items[i].field_is("type", "function_call") {
                if let Some(name) = items[i].get_str("name") {
                    if self.withheld_function_names.contains(&name.to_owned()) {
                        return true;
                    }
                }
            }
            i = i + 1;
        }
        false
    }

    /// Refuses an event that may not wait for its call's name.
    fn validate_pending_frame_before_accumulation(
        &self,
        output_index: u32,
        frame: &EventFrame,
    ) -> (out: Result<
        (),
        ExecutorError,
    >)
        ensures
            done_outcome(out) == may_wait(self@, output_index, frame@),
    {
        if self.has_too_many_calls(output_index) {
            return Err(
                self.pending_limit_error("unnamed function-call SSE exceeded 128 pending calls"),
            );
        }
        let bytes: usize = frame.wire.json_bytes();
        if self.pending_bytes.saturating_add(bytes) > MAX_PENDING_FUNCTION_BYTES {
            return Err(
                self.pending_limit_error(
                    "unnamed function-call SSE exceeded 262144 buffered bytes",
                ),
            );
        }
        Ok(())
    }

    /// Refuses an event that must not be accumulated.
    pub fn validate_before_accumulation(
        &mut self,
        frame: &EventFrame,
        call: Option<&AccumulatedFunctionCall>,
    ) -> (out: Result<(), ExecutorError>)
        ensures
            final(self)@ == admitted(old(self)@, frame@, call_view(call)).0,
            done_outcome(out) == admitted(old(self)@, frame@, call_view(call)).1,
    {
        if let Err(e) = self.validate_withheld_function_names(frame) {
            return Err(e);
        }
        match &frame.payload {
            EventPayload::OutputItemAdded {
                item_type: SSEItemType::FunctionCall,
                output_index,
                name: None,
                ..
            } => self.validate_pending_frame_before_accumulation(*output_index, frame),
            EventPayload::FunctionCallArgsDone {
                arguments,
                item_id,
                name,
                output_index,
                call_id,
            } => {
                let shape = self.shape(*output_index);
                let searching = match &shape {
                    Some(FunctionCallShape::ToolSearch(_)) => true,
                    _ => false,
                };
                if !self.tool_search_enabled || !(same_text(name.as_str(), "tool_search") || searching) {
                    return Ok(());
                }
                if let Err(e) = validate_wire_output_index(frame, *output_index) {
                    return Err(e);
                }
                if byte_len(arguments.as_str()) > MAX_PENDING_FUNCTION_BYTES {
                    return Err(search_error());
                }
                if let Some(FunctionCallShape::ToolSearch(state)) = &shape {
                    if let Err(e) = validate_active_tool_search_done_name(frame) {
                        return Err(e);
                    }
                    if let Err(e) = validate_stream_linkage(state, item_id.as_str(), call_id) {
                        return Err(e);
                    }
                }
                Ok(())
            },
            EventPayload::OutputItemDone {
                item_type: SSEItemType::FunctionCall,
                output_index,
                item,
                ..
            } => {
                let shape = self.shape(*output_index);
                let searching = match &shape {
                    Some(FunctionCallShape::ToolSearch(_)) => true,
                    _ => false,
                };
                if !self.tool_search_enabled || !(item.field_is("name", "tool_search") || searching) {
                    return Ok(());
                }
                validate_search_done(&shape, frame, *output_index, item)
            },
            EventPayload::FunctionCallArgsDelta { delta, call_id, item_id, output_index } => {
                let more: usize = byte_len(delta.as_str());
                match self.shape(*output_index) {
                    None => self.validate_pending_frame_before_accumulation(*output_index, frame),
                    Some(FunctionCallShape::Custom(_)) => {
                        let current: usize = match call {
                            Some(c) => byte_len(c.arguments()),
                            None => 0,
                        };
                        ensure_function_call_size_for(current, more)
                    },
                    Some(FunctionCallShape::ToolSearch(state)) => {
                        if let Err(e) = validate_wire_output_index(frame, *output_index) {
                            return Err(e);
                        }
                        if let Err(e) = validate_stream_linkage(&state, item_id.as_str(), call_id) {
                            return Err(e);
                        }
                        let total: usize = state.accounted_argument_bytes.saturating_add(more);
                        if total > MAX_PENDING_FUNCTION_BYTES {
                            return Err(search_error());
                        }
                        let mut state = state;
                        state.accounted_argument_bytes = total;
                        self.active.insert(*output_index, FunctionCallShape::ToolSearch(state));
                        Ok(())
                    },
                    _ => Ok(()),
                }
            },
            _ => Ok(()),
        }
    }
}

proof fn added_count_from_end(frames: Seq<EventFrameView>, n: int)
    requires
        n == frames.len(),
    ensures
        first_added(frames, n) is None,
{
}

/// `sent` with more events behind.
fn append_frames(sent: &mut Vec<EventFrame>, more: Vec<EventFrame>)
    ensures
        crate::data::views(final(sent)@) == crate::data::views(old(sent)@) + crate::data::views(
            more@,
        ),
{
    let ghost before = sent@;
    let mut more = more;
    let ghost all = more@;
    sent.append(&mut more);
    proof {
        assert(crate::data::views(sent@) =~= crate::data::views(before) + crate::data::views(all));
    }
}

/// Whether the arguments of a search are closed as they were streamed.
fn close_search_arguments(
    state: &ToolSearchCallState,
    item_id: &str,
    call_id: &Option<String>,
    arrived: &EventFrame,
    call: Option<&AccumulatedFunctionCall>,
) -> (out: Result<(), ExecutorError>)
    ensures
        done_outcome(out) == search_arguments_closed(
            state@,
            item_id@,
            crate::data::opt_view(*call_id),
            arrived@,
            call_view(call),
        ),
{
    if let Err(e) = validate_active_tool_search_done_name(arrived) {
        return Err(e);
    }
    if let Err(e) = validate_stream_linkage(state, item_id, call_id) {
        return Err(e);
    }
    let c = match call {
        Some(c) => c,
        None => {
            return Err(search_error());
        },
    };
    if let Err(e) = validate_search_call_state(state, c, item_id) {
        return Err(e);
    }
    match public_output_item(c.item.id.as_str(), c.item.call_id.as_str(), c.arguments()) {
        Err(e) => Err(ExecutorError::Tool(e)),
        Ok(public) => {
            if !same_text(public.id.as_str(), state.public_item_id.as_str()) || !same_text(
                public.call_id.as_str(),
                state.call_id.as_str(),
            ) {
                Err(search_error())
            } else {
                Ok(())
            }
        },
    }
}

/// The arguments that a finished search must have.
fn search_arguments(
    state: &ToolSearchCallState,
    item_id: &str,
    call: Option<&AccumulatedFunctionCall>,
    search: Option<&ToolSearchCall>,
) -> (out: Result<JsonObject, ExecutorError>)
    ensures
        crate::error::outcome(out) == accumulated_search(
            state@,
            item_id@,
            call_view(call),
            search_view(search),
        ),
{
    match call {
        Some(c) => {
            if let Err(e) = validate_search_call_state(state, c, item_id) {
                return Err(e);
            }
            if !state.arguments_done && c.arguments().is_empty() {
                return Err(search_error());
            }
            match public_output_item(c.item.id.as_str(), c.item.call_id.as_str(), c.arguments()) {
                Err(e) => Err(ExecutorError::Tool(e)),
                Ok(public) => Ok(public.arguments),
            }
        },
        None => match search {
            Some(found) => {
                if !same_text(item_id, state.upstream_item_id.as_str()) || !same_text(
                    found.id.as_str(),
                    state.public_item_id.as_str(),
                ) || !same_text(found.call_id.as_str(), state.call_id.as_str()) {
                    Err(search_error())
                } else {
                    Ok(found.arguments.copy())
                }
            },
            None => Err(search_error()),
        },
    }
}

/// The public item of a search that is done.
fn finish_search(
    state: &ToolSearchCallState,
    item_id: &str,
    arrived: &EventFrame,
    call: Option<&AccumulatedFunctionCall>,
    search: Option<&ToolSearchCall>,
) -> (out: Result<ToolSearchCall, ExecutorError>)
    ensures
        crate::error::outcome(out) == search_finished(
            state@,
            item_id@,
            arrived@,
            call_view(call),
            search_view(search),
        ),
{
    let arguments = match search_arguments(state, item_id, call, search) {
        Ok(arguments) => arguments,
        Err(e) => {
            return Err(e);
        },
    };
    let item = match arrived.wire.rest.get("item") {
        Some(Json::Object(item)) => item,
        _ => {
            return Err(search_error());
        },
    };
    match public_output_item_from_raw(item) {
        Err(e) => Err(ExecutorError::Tool(e)),
        Ok(public) => {
            if !same_text(public.id.as_str(), state.public_item_id.as_str()) || !same_text(
                public.call_id.as_str(),
                state.call_id.as_str(),
            ) || !JsonObject::same(&public.arguments.settle(), &arguments.settle()) {
                Err(search_error())
            } else {
                Ok(public)
            }
        },
    }
}

/// Refuses an item that is done and is not the search at its place.
fn validate_search_done(
    shape: &Option<FunctionCallShape>,
    frame: &EventFrame,
    output_index: u32,
    item: &Json,
) -> (out: Result<(), ExecutorError>)
    ensures
        forall|st: TranslatorView|
            #![trigger done_valid(st, frame@, output_index, item@)]
            shape_at(st, output_index) == crate::data::opt_view(*shape) ==> (out is Ok
                == done_valid(st, frame@, output_index, item@)),
        out matches Err(e) ==> e@ == bad_search(),
{
    if let Err(e) = validate_wire_output_index(frame, output_index) {
        return Err(e);
    }
    let fields = match item {
        Json::Object(fields) => fields,
        _ => {
            return Err(search_error());
        },
    };
    match fields.get_str("arguments") {
        Some(arguments) => {
            if byte_len(arguments) > MAX_PENDING_FUNCTION_BYTES {
                return Err(search_error());
            }
        },
        None => {
            return Err(search_error());
        },
    }
    let public = match public_output_item_from_raw(fields) {
        Ok(public) => public,
        Err(_) => {
            return Err(search_error());
        },
    };
    if let Some(FunctionCallShape::ToolSearch(state)) = shape {
        if !same_text(public.id.as_str(), state.public_item_id.as_str()) || !same_text(
            public.call_id.as_str(),
            state.call_id.as_str(),
        ) {
            return Err(search_error());
        }
    }
    Ok(())
}

/// The call that an event speaks of, as it was accumulated.
pub open spec fn event_call(a: AccumulatorView, frame: EventFrameView) -> Option<
    AccumulatedFunctionCallView,
> {
    match crate::accumulator::function_key(frame.payload) {
        Some((item_id, output_index)) => crate::accumulator::known_call(a, item_id, output_index),
        None => None,
    }
}

/// The search that an event speaks of, as it was accumulated.
pub open spec fn event_search(
    a: AccumulatorView,
    frame: EventFrameView,
) -> Option<ToolSearchCallView> {
    match crate::accumulator::function_key(frame.payload) {
        Some((item_id, output_index)) => crate::accumulator::known_search(a, item_id, output_index),
        None => None,
    }
}

/// What comes of an event that is accumulated and translated: both states after it,
/// and what a client sees of it.
pub open spec fn frame_translated(
    a: AccumulatorView,
    t: TranslatorView,
    frame: EventFrameView,
    fresh: Seq<char>,
) -> (AccumulatorView, TranslatorView, Result<FunctionSseTranslationView, ExecutorErrorView>) {
    let (t1, admission) = admitted(t, frame, event_call(a, frame));
    match admission {
        Err(e) => (a, t1, Err(e)),
        Ok(_) => {
            let a1 = crate::accumulator::event_step(
                crate::accumulator::details_captured(a, frame),
                frame,
                fresh,
            );
            let a2 = AccumulatorView { processing_error: None, ..a1 };
            match a1.processing_error {
                Some(e) => (a2, t1, Err(e)),
                None => {
                    let (t2, out) = translated(
                        t1,
                        frame,
                        event_call(a2, frame),
                        event_search(a2, frame),
                    );
                    (
                        a2,
                        t2,
                        match out {
                            Ok(frames) => Ok(
                                FunctionSseTranslationView {
                                    frames,
                                    defer_from_output_index: deferred_from(t2),
                                },
                            ),
                            Err(e) => Err(e),
                        },
                    )
                },
            }
        },
    }
}

/// What comes of a line of the stream.
pub open spec fn line_translated(
    a: AccumulatorView,
    t: TranslatorView,
    line: Seq<char>,
    fresh: Seq<char>,
) -> (
    AccumulatorView,
    TranslatorView,
    Result<Option<FunctionSseTranslationView>, ExecutorErrorView>,
) {
    match crate::events::line_frame(line) {
        None => (a, t, Ok(None)),
        Some(frame) => {
            let (a1, t1, out) = frame_translated(a, t, frame, fresh);
            (
                a1,
                t1,
                match out {
                    Ok(translation) => Ok(Some(translation)),
                    Err(e) => Err(e),
                },
            )
        },
    }
}

/// The view of what comes of a line.
pub open spec fn line_outcome(out: Result<Option<FunctionSseTranslation>, ExecutorError>) -> Result<
    Option<FunctionSseTranslationView>,
    ExecutorErrorView,
> {
    match out {
        Ok(o) => Ok(crate::data::opt_view(o)),
        Err(e) => Err(e@),
    }
}

impl ResponseAccumulator {
    /// Accumulates an event and translates it, with what a fresh identity is made of.
    pub fn process_frame_with_translator(
        &mut self,
        frame: &EventFrame,
        translator: &mut FunctionSseTranslator,
        fresh: &str,
    ) -> (out: Result<FunctionSseTranslation, ExecutorError>)
        ensures
            ({
                let (a, t, r) = frame_translated(old(self)@, old(translator)@, frame@, fresh@);
                final(self)@ == a && final(translator)@ == t && crate::error::outcome(out) == r
            }),
    {
        let key = function_event_key(&frame.payload);
        let call = match &key {
            Some(k) => self.accumulated_function_call(k.0.as_str(), k.1),
            None => None,
        };
        if let Err(e) = translator.validate_before_accumulation(frame, call.as_ref()) {
            return Err(e);
        }
        self.process_normalized_frame(frame, fresh);
        if let Some(error) = self.take_processing_error() {
            return Err(error);
        }
        let call = match &key {
            Some(k) => self.accumulated_function_call(k.0.as_str(), k.1),
            None => None,
        };
        let search = match &key {
            Some(k) => self.accumulated_tool_search_call(k.0.as_str(), k.1),
            None => None,
        };
        translator.translate(frame, call.as_ref(), search.as_ref())
    }

    /// Accumulates a line of the stream and translates it. A line that is no event
    /// changes nothing.
    pub fn process_sse_line_with_translator(
        &mut self,
        line: &str,
        translator: &mut FunctionSseTranslator,
    ) -> (out: Result<Option<FunctionSseTranslation>, ExecutorError>)
        ensures
            exists|fresh: Seq<char>|
                ({
                    let (a, t, r) = #[trigger] line_translated(
                        old(self)@,
                        old(translator)@,
                        line@,
                        fresh,
                    );
                    crate::ids::is_uuid7(fresh) && final(self)@ == a && final(translator)@ == t && line_outcome(out) == r
                }),
    {
        let ghost a = self@;
        let ghost t = translator@;
        match normalize_sse_line(line) {
            None => {
                proof {
                    crate::ids::uuids_exist();
                    let uuid = choose|uuid: Seq<char>| crate::ids::is_uuid7(uuid);
                    assert(line_translated(a, t, line@, uuid) == (
                        a,
                        t,
                        Ok::<Option<FunctionSseTranslationView>, ExecutorErrorView>(None),
                    ));
                }
                Ok(None)
            },
            Some(frame) => {
                let fresh = crate::accumulator::fresh_for(&frame);
                let out = self.process_frame_with_translator(&frame, translator, fresh.as_str());
                proof {
                    let uuid = crate::accumulator::uuid_like(frame@.event_type, fresh@);
                    crate::accumulator::fresh_is_for_items(
                        crate::accumulator::details_captured(a, frame@),
                        frame@,
                        fresh@,
                        uuid,
                    );
                    assert(frame_translated(a, t, frame@, fresh@) == frame_translated(
                        a,
                        t,
                        frame@,
                        uuid,
                    ));
                    assert(line_translated(a, t, line@, fresh@) == line_translated(
                        a,
                        t,
                        line@,
                        uuid,
                    ));
                }
                match out {
                    Ok(translation) => Ok(Some(translation)),
                    Err(e) => Err(e),
                }
            },
        }
    }
}

/// Whether what waits for a name is within its limits.
pub open spec fn within_limits(st: TranslatorView) -> bool {
    &&& st.pending_bytes <= MAX_PENDING_FUNCTION_BYTES
    &&& st.pending_unnamed.dom().finite()
    &&& st.pending_unnamed.dom().len() <= MAX_PENDING_FUNCTION_CALLS
}

/// However a stream goes, what waits for a name stays within its limits.
pub proof fn waiting_calls_stay_bounded(
    st: TranslatorView,
    frame: EventFrameView,
    call: Option<AccumulatedFunctionCallView>,
    search: Option<ToolSearchCallView>,
)
    requires
        within_limits(st),
    ensures
        within_limits(translated(st, frame, call, search).0),
{
    let noted = if frame.event_type is ResponseFailed || frame.event_type is ResponseIncomplete {
        TranslatorView { upstream_terminal_failure: true, ..st }
    } else {
        st
    };
    match frame.payload {
        EventPayloadView::OutputItemAdded { output_index, .. } => {
            buffered_is_bounded(noted, output_index, frame);
        },
        EventPayloadView::FunctionCallArgsDelta { output_index, .. } => {
            buffered_is_bounded(noted, output_index, frame);
        },
        EventPayloadView::FunctionCallArgsDone { item_id, name, output_index, .. } => {
            resolved_is_bounded(noted, item_id, name, output_index, call);
        },
        EventPayloadView::OutputItemDone { item_id, output_index, item, .. } => {
            resolved_is_bounded(
                noted,
                item_id,
                crate::accumulator::or_empty(
                    crate::json::text_of(crate::json::field(item, "name"@)),
                ),
                output_index,
                call,
            );
        },
        _ => {},
    }
}

proof fn buffered_is_bounded(st: TranslatorView, output_index: u32, frame: EventFrameView)
    requires
        within_limits(st),
    ensures
        within_limits(buffered(st, output_index, frame).0),
{
    let after = buffered(st, output_index, frame).0;
    if after.pending_unnamed != st.pending_unnamed {
        if st.pending_unnamed.contains_key(output_index) {
            assert(after.pending_unnamed.dom() =~= st.pending_unnamed.dom());
        } else {
            assert(after.pending_unnamed.dom() =~= st.pending_unnamed.dom().insert(output_index));
        }
    }
}

proof fn replayed_is_bounded(
    frames: Seq<EventFrameView>,
    st: TranslatorView,
    begun: Seq<EventFrameView>,
    call: Option<AccumulatedFunctionCallView>,
    n: int,
)
    requires
        within_limits(st),
    ensures
        within_limits(replayed(frames, st, begun, call, n).0),
    decreases n,
{
    if n > 0 {
        replayed_is_bounded(frames, st, begun, call, n - 1);
        let before = replayed(frames, st, begun, call, n - 1).0;
        if let EventPayloadView::FunctionCallArgsDelta { output_index, .. } = frames[n - 1].payload {
            buffered_is_bounded(before, output_index, frames[n - 1]);
        }
    }
}

proof fn resolved_is_bounded(
    st: TranslatorView,
    item_id: Seq<char>,
    name: Seq<char>,
    output_index: u32,
    call: Option<AccumulatedFunctionCallView>,
)
    requires
        within_limits(st),
    ensures
        within_limits(resolved(st, item_id, name, output_index, call).0),
{
    let frames = pending_frames(st, output_index);
    let taken = pending_taken(st, output_index);
    assert(within_limits(taken)) by {
        if st.pending_unnamed.contains_key(output_index) {
            assert(taken.pending_unnamed.dom() =~= st.pending_unnamed.dom().remove(output_index));
        }
    }
    let arrived = first_added(frames, 0);
    let start_id = match arrived {
        Some(o) => added_id(o)->Some_0,
        None => item_id,
    };
    let (begun, sent) = started(taken, start_id, name, output_index, arrived, call);
    assert(within_limits(begun));
    if let Ok(sent) = sent {
        replayed_is_bounded(frames, begun, sent, call, frames.len() as int);
    }
}

/// The client is shown nothing of a call that the gateway runs: neither that it begins,
/// nor its arguments, nor that it is done.
pub proof fn gateway_calls_show_nothing(
    st: TranslatorView,
    item_id: Seq<char>,
    name: Seq<char>,
    output_index: u32,
    frame: EventFrameView,
    call: Option<AccumulatedFunctionCallView>,
    search: Option<ToolSearchCallView>,
)
    ensures
        crate::tools::gateway_owned_type(type_of(st, name)) ==> started(
            st,
            item_id,
            name,
            output_index,
            Some(frame),
            call,
        ).1
            == Ok::<_, ExecutorErrorView>(Seq::<EventFrameView>::empty()) && shape_at(
            started(st, item_id, name, output_index, Some(frame), call).0,
            output_index,
        ) == Some(FunctionCallShapeView::GatewayOwned),
        shape_at(st, output_index) == Some(FunctionCallShapeView::GatewayOwned) ==> delta_step(
            st,
            item_id,
            output_index,
            frame,
            call,
        ).1 == Ok::<_, ExecutorErrorView>(Seq::<EventFrameView>::empty()) && arguments_finished(
            st,
            item_id,
            name,
            output_index,
            None,
            frame,
            call,
        ).1 == Ok::<_, ExecutorErrorView>(Seq::<EventFrameView>::empty()) && call_finished(
            st,
            item_id,
            name,
            output_index,
            frame,
            call,
            search,
        ).1 == Ok::<_, ExecutorErrorView>(Seq::<EventFrameView>::empty()),
{
}

/// Whether a stream has carried at most one search: what is streamed as a search is at one
/// place, and it is remembered that a search was seen.
pub open spec fn one_search_at_most(st: TranslatorView) -> bool {
    &&& forall|k: u32| #[trigger] searches_at(st, k) ==> st.search_call_seen
    &&& forall|i: u32, j: u32| #[trigger]
        searches_at(st, i) && #[trigger] searches_at(st, j) ==> i == j
}

/// Whether a step from one state to another keeps to one search: one that was seen stays
/// seen, and then no other begins.
pub open spec fn keeps_to_one_search(before: TranslatorView, after: TranslatorView) -> bool {
    &&& one_search_at_most(before) ==> one_search_at_most(after)
    &&& before.search_call_seen ==> after.search_call_seen
    &&& before.search_call_seen ==> forall|k: u32| #[trigger]
        searches_at(after, k) ==> searches_at(before, k)
}

proof fn delta_keeps_to_one_search(
    st: TranslatorView,
    item_id: Seq<char>,
    output_index: u32,
    frame: EventFrameView,
    call: Option<AccumulatedFunctionCallView>,
)
    ensures
        keeps_to_one_search(st, delta_step(st, item_id, output_index, frame, call).0),
{
    let after = delta_step(st, item_id, output_index, frame, call).0;
    assert(forall|k: u32| #[trigger] searches_at(after, k) == searches_at(st, k));
}

proof fn replay_keeps_to_one_search(
    frames: Seq<EventFrameView>,
    st: TranslatorView,
    begun: Seq<EventFrameView>,
    call: Option<AccumulatedFunctionCallView>,
    n: int,
)
    ensures
        keeps_to_one_search(st, replayed(frames, st, begun, call, n).0),
    decreases n,
{
    if n > 0 {
        replay_keeps_to_one_search(frames, st, begun, call, n - 1);
        let before = replayed(frames, st, begun, call, n - 1).0;
        if let EventPayloadView::FunctionCallArgsDelta { item_id, output_index, .. } = frames[n
            - 1].payload {
            delta_keeps_to_one_search(before, item_id, output_index, frames[n - 1], call);
        }
    }
}

proof fn start_keeps_to_one_search(
    st: TranslatorView,
    item_id: Seq<char>,
    name: Seq<char>,
    output_index: u32,
    arrived: Option<EventFrameView>,
    call: Option<AccumulatedFunctionCallView>,
)
    ensures
        keeps_to_one_search(st, started(st, item_id, name, output_index, arrived, call).0),
{
    let after = started(st, item_id, name, output_index, arrived, call).0;
    assert(forall|k: u32|
        k != output_index ==> #[trigger] searches_at(after, k) == searches_at(st, k));
}

proof fn resolving_keeps_to_one_search(
    st: TranslatorView,
    item_id: Seq<char>,
    name: Seq<char>,
    output_index: u32,
    call: Option<AccumulatedFunctionCallView>,
)
    ensures
        keeps_to_one_search(st, resolved(st, item_id, name, output_index, call).0),
{
    let frames = pending_frames(st, output_index);
    let taken = pending_taken(st, output_index);
    assert(forall|k: u32| #[trigger] searches_at(taken, k) == searches_at(st, k));
    let arrived = first_added(frames, 0);
    let start_id = match arrived {
        Some(o) => added_id(o)->Some_0,
        None => item_id,
    };
    start_keeps_to_one_search(taken, start_id, name, output_index, arrived, call);
    let (begun, sent) = started(taken, start_id, name, output_index, arrived, call);
    if let Ok(sent) = sent {
        replay_keeps_to_one_search(frames, begun, sent, call, frames.len() as int);
    }
}

/// A stream carries at most one search: once one was seen, whatever arrives begins no
/// other.
pub proof fn streams_carry_one_search(
    st: TranslatorView,
    frame: EventFrameView,
    call: Option<AccumulatedFunctionCallView>,
    search: Option<ToolSearchCallView>,
)
    ensures
        keeps_to_one_search(st, translated(st, frame, call, search).0),
        keeps_to_one_search(st, admitted(st, frame, call).0),
{
    let counted = admitted(st, frame, call).0;
    assert(forall|k: u32| #[trigger] searches_at(counted, k) == searches_at(st, k));
    let after = translated(st, frame, call, search).0;
    let noted = if frame.event_type is ResponseFailed || frame.event_type is ResponseIncomplete {
        TranslatorView { upstream_terminal_failure: true, ..st }
    } else {
        st
    };
    assert(forall|k: u32| #[trigger] searches_at(noted, k) == searches_at(st, k));
    match frame.payload {
        EventPayloadView::OutputItemAdded { item_id, name, output_index, .. } => {
            if let Some(name) = name {
                start_keeps_to_one_search(noted, item_id, name, output_index, Some(frame), call);
            } else {
                let waiting = buffered(noted, output_index, frame).0;
                assert(forall|k: u32| #[trigger] searches_at(waiting, k) == searches_at(st, k));
            }
        },
        EventPayloadView::FunctionCallArgsDelta { item_id, output_index, .. } => {
            delta_keeps_to_one_search(noted, item_id, output_index, frame, call);
        },
        EventPayloadView::FunctionCallArgsDone { item_id, name, output_index, .. } => {
            resolving_keeps_to_one_search(noted, item_id, name, output_index, call);
            let known = resolved(noted, item_id, name, output_index, call).0;
            assert(forall|k: u32| #[trigger] searches_at(after, k) == searches_at(known, k));
        },
        EventPayloadView::OutputItemDone { item_id, output_index, item, item_type } => {
            if item_type == SSEItemType::FunctionCall {
                let name = crate::accumulator::or_empty(
                    crate::json::text_of(crate::json::field(item, "name"@)),
                );
                resolving_keeps_to_one_search(noted, item_id, name, output_index, call);
                let known = resolved(noted, item_id, name, output_index, call).0;
                assert(forall|k: u32| #[trigger]
                    searches_at(after, k) ==> searches_at(known, k));
            }
        },
        _ => {},
    }
}

/// A search that arrives after one was seen is refused, whether that one is done or not, and
/// begins nothing.
pub proof fn arriving_second_searches_are_refused(
    st: TranslatorView,
    frame: EventFrameView,
    call: Option<AccumulatedFunctionCallView>,
    search: Option<ToolSearchCallView>,
)
    requires
        frame.event_type is OutputItemAdded,
        frame.payload matches EventPayloadView::OutputItemAdded { item_type, name, .. } && item_type
            is FunctionCall && (name matches Some(name) && type_of(st, name) is ToolSearch),
        st.search_call_seen,
    ensures
        translated(st, frame, call, search) == (
            st,
            Err::<Seq<EventFrameView>, ExecutorErrorView>(bad_search()),
        ),
{
}

/// A search that begins after one was seen is refused, whether that one is done or not, and
/// changes nothing.
pub proof fn second_searches_are_refused(
    st: TranslatorView,
    item_id: Seq<char>,
    name: Seq<char>,
    output_index: u32,
    arrived: Option<EventFrameView>,
    call: Option<AccumulatedFunctionCallView>,
)
    requires
        type_of(st, name) is ToolSearch,
        st.search_call_seen,
    ensures
        started(st, item_id, name, output_index, arrived, call) == (
            st,
            Err::<Seq<EventFrameView>, ExecutorErrorView>(bad_search()),
        ),
{
}

} // verus!
