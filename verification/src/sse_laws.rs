//! What clients see of streamed calls: who a call is, what of it is shown, and in what order.
use vstd::prelude::*;

#[allow(unused_imports)]
use crate::accumulator::AccumulatedFunctionCallView;
#[allow(unused_imports)]
use crate::error::ExecutorErrorView;
#[allow(unused_imports)]
use crate::events::{EventFrameView, EventPayloadView, SSEEventType, SSEItemType};
#[allow(unused_imports)]
use crate::function_sse::{
    CustomCallStateView, FunctionCallShapeView, TranslatorView, MAX_PENDING_FUNCTION_BYTES,
};
#[allow(unused_imports)]
use crate::items::ToolSearchCallView;
#[allow(unused_imports)]
use crate::json::JsonView;
#[allow(unused_imports)]
use crate::tools::ToolType;

verus! {

/// The text of a field of an event.
pub open spec fn event_text(frame: EventFrameView, key: Seq<char>) -> Option<Seq<char>> {
    crate::json::text_of(crate::json::object_field(frame.wire.rest, key))
}

/// A field of the item that an event carries.
pub open spec fn item_part(frame: EventFrameView, key: Seq<char>) -> Option<JsonView> {
    match crate::json::object_field(frame.wire.rest, "item"@) {
        Some(item) => crate::json::field(item, key),
        None => None,
    }
}

/// The text of a field of the item that an event carries.
pub open spec fn item_text(frame: EventFrameView, key: Seq<char>) -> Option<Seq<char>> {
    crate::json::text_of(item_part(frame, key))
}

/// Whether an event is of a kind and at a place, by its type as by its wire form.
pub open spec fn is_event(
    frame: EventFrameView,
    event_type: SSEEventType,
    name: Seq<char>,
    output_index: u32,
) -> bool {
    &&& frame.event_type == event_type
    &&& frame.wire.event_type == name
    &&& frame.wire.output_index == Some(output_index as u64)
    &&& frame.wire.sequence_number is None
}

/// Whether an event carries an item of a kind, with an identity, a `call_id` and a status.
pub open spec fn shows_item(
    frame: EventFrameView,
    kind: Seq<char>,
    id: Seq<char>,
    call_id: Seq<char>,
    status: Seq<char>,
) -> bool {
    &&& item_text(frame, "type"@) == Some(kind)
    &&& item_text(frame, "id"@) == Some(id)
    &&& item_text(frame, "call_id"@) == Some(call_id)
    &&& item_text(frame, "status"@) == Some(status)
}

proof fn item_keys_differ()
    ensures
        "id"@ != "type"@,
        "id"@ != "status"@,
        "id"@ != "call_id"@,
        "id"@ != "input"@,
        "id"@ != "name"@,
        "id"@ != "execution"@,
        "id"@ != "arguments"@,
        "type"@ != "status"@,
        "type"@ != "call_id"@,
        "type"@ != "input"@,
        "type"@ != "name"@,
        "type"@ != "execution"@,
        "type"@ != "arguments"@,
        "status"@ != "call_id"@,
        "status"@ != "input"@,
        "status"@ != "name"@,
        "status"@ != "execution"@,
        "status"@ != "arguments"@,
        "call_id"@ != "input"@,
        "call_id"@ != "name"@,
        "call_id"@ != "execution"@,
        "call_id"@ != "arguments"@,
        "input"@ != "name"@,
        "execution"@ != "arguments"@,
        "delta"@ != "item_id"@,
        "input"@ != "item_id"@,
{
    reveal_strlit("id");
    reveal_strlit("type");
    reveal_strlit("status");
    reveal_strlit("call_id");
    reveal_strlit("input");
    reveal_strlit("name");
    reveal_strlit("execution");
    reveal_strlit("arguments");
    reveal_strlit("delta");
    reveal_strlit("item_id");
    assert("id"@.len() == 2);
    assert("type"@.len() == 4 && "type"@[0] == 't');
    assert("name"@.len() == 4 && "name"@[0] == 'n');
    assert("input"@.len() == 5);
    assert("delta"@.len() == 5);
    assert("status"@.len() == 6);
    assert("call_id"@.len() == 7);
    assert("item_id"@.len() == 7);
    assert("execution"@.len() == 9 && "execution"@[0] == 'e');
    assert("arguments"@.len() == 9 && "arguments"@[0] == 'a');
}

/// A custom call that begins is shown as one event: the item is a custom tool call in progress
/// with the `call_id` and the name of the model's call, under the public form of its identity,
/// and without input. What is kept of the call has that identity, and nothing was sent of its
/// input.
pub proof fn custom_calls_are_shown_begun(
    st: TranslatorView,
    frame: EventFrameView,
    c: AccumulatedFunctionCallView,
    search: Option<ToolSearchCallView>,
)
    requires
        frame.payload matches EventPayloadView::OutputItemAdded { item_type, name, .. } && item_type
            is FunctionCall && (name matches Some(name) && st.tool_types.contains_key(name)
            && st.tool_types[name] is Custom),
    ensures
        crate::function_sse::translated(st, frame, Some(c), search).1 matches Ok(frames)
            && frames.len() == 1 && {
            let shown = frames[0];
            &&& is_event(
                shown,
                SSEEventType::OutputItemAdded,
                "response.output_item.added"@,
                c.output_index,
            )
            &&& shows_item(
                shown,
                "custom_tool_call"@,
                crate::custom::custom_item_id(c.item.id),
                c.item.call_id,
                "in_progress"@,
            )
            &&& item_text(shown, "name"@) == Some(c.item.name)
            &&& item_text(shown, "input"@) == Some(Seq::<char>::empty())
        },
        ({
            let after = crate::function_sse::translated(st, frame, Some(c), search).0;
            let k = frame.payload->OutputItemAdded_output_index;
            &&& after.active.contains_key(k)
            &&& after.active[k] matches FunctionCallShapeView::Custom(state)
                && state.public_item_id == crate::custom::custom_item_id(c.item.id)
                && state.output_index == k && state.emitted_input.len() == 0 && !state.input_done
        }),
{
    item_keys_differ();
}

/// Whether the whole arguments of a custom call go on from the input that was sent of it.
pub open spec fn input_goes_on(
    state: CustomCallStateView,
    c: AccumulatedFunctionCallView,
) -> bool {
    let input = crate::custom::input_or_arguments(crate::accumulator::call_arguments(c));
    &&& vstd::utf8::encode_utf8(crate::accumulator::call_arguments(c)).len()
        <= MAX_PENDING_FUNCTION_BYTES
    &&& state.emitted_input.len() <= input.len()
    &&& state.emitted_input == input.take(state.emitted_input.len() as int)
}

/// Whether an event is a piece of a custom call's input.
pub open spec fn is_input_delta(
    frame: EventFrameView,
    state: CustomCallStateView,
    delta: Seq<char>,
) -> bool {
    &&& is_event(
        frame,
        SSEEventType::CustomToolCallInputDelta,
        "response.custom_tool_call_input.delta"@,
        state.output_index,
    )
    &&& event_text(frame, "delta"@) == Some(delta)
    &&& event_text(frame, "item_id"@) == Some(state.public_item_id)
}

/// Whether an event closes a custom call's input.
pub open spec fn is_input_done(
    frame: EventFrameView,
    state: CustomCallStateView,
    input: Seq<char>,
) -> bool {
    &&& is_event(
        frame,
        SSEEventType::CustomToolCallInputDone,
        "response.custom_tool_call_input.done"@,
        state.output_index,
    )
    &&& event_text(frame, "input"@) == Some(input)
    &&& event_text(frame, "item_id"@) == Some(state.public_item_id)
}

/// Whether events close a custom call's input: what was not sent of it yet comes as one piece,
/// and then the whole input.
pub open spec fn closes_input(
    frames: Seq<EventFrameView>,
    state: CustomCallStateView,
    input: Seq<char>,
) -> bool {
    let missing = input.skip(state.emitted_input.len() as int);
    if state.input_done {
        frames.len() == 0
    } else if missing.len() == 0 {
        frames.len() == 1 && is_input_done(frames[0], state, input)
    } else {
        frames.len() == 2 && is_input_delta(frames[0], state, missing) && is_input_done(
            frames[1],
            state,
            input,
        )
    }
}

proof fn input_events_say(state: CustomCallStateView, text: Seq<char>)
    ensures
        is_input_delta(
            crate::function_sse::input_event(
                state,
                SSEEventType::CustomToolCallInputDelta,
                "delta"@,
                text,
            ),
            state,
            text,
        ),
        is_input_done(
            crate::function_sse::input_event(
                state,
                SSEEventType::CustomToolCallInputDone,
                "input"@,
                text,
            ),
            state,
            text,
        ),
{
    item_keys_differ();
}

/// The arguments of a custom call that are told whole close its input: the client is sent what
/// it was not sent yet, then the whole input, once. Arguments that are too long, or that
/// contradict what was sent, are an error.
pub proof fn custom_inputs_are_closed(
    st: TranslatorView,
    frame: EventFrameView,
    state: CustomCallStateView,
    c: AccumulatedFunctionCallView,
    search: Option<ToolSearchCallView>,
)
    requires
        frame.event_type is FunctionCallArgumentsDone,
        frame.payload matches EventPayloadView::FunctionCallArgsDone { output_index, .. }
            && st.active.contains_key(output_index) && st.active[output_index]
            == FunctionCallShapeView::Custom(state),
    ensures
        ({
            let (after, out) = crate::function_sse::translated(st, frame, Some(c), search);
            let input = crate::custom::input_or_arguments(crate::accumulator::call_arguments(c));
            let k = frame.payload->FunctionCallArgsDone_output_index;
            &&& out is Ok <==> state.input_done || input_goes_on(state, c)
            &&& out matches Ok(frames) ==> closes_input(frames, state, input)
            &&& out is Ok && !state.input_done ==> after.active.contains_key(k)
                && after.active[k] == FunctionCallShapeView::Custom(
                CustomCallStateView { emitted_input: input, input_done: true, ..state },
            )
        }),
{
    let input = crate::custom::input_or_arguments(crate::accumulator::call_arguments(c));
    input_events_say(state, input);
    input_events_say(state, input.skip(state.emitted_input.len() as int));
    let out = crate::function_sse::translated(st, frame, Some(c), search).1;
    let more = crate::function_sse::input_closed(state, crate::accumulator::call_arguments(c)).1;
    if let Ok(more) = more {
        assert(Seq::<EventFrameView>::empty() + more =~= more);
    }
}

/// A custom call that is done is shown with its input closed, and then as done: the item has the
/// `call_id` and the name of the model's call, the identity under which the call began, and its
/// whole input. The call is then forgotten.
pub proof fn custom_calls_are_shown_done(
    st: TranslatorView,
    frame: EventFrameView,
    state: CustomCallStateView,
    c: AccumulatedFunctionCallView,
    search: Option<ToolSearchCallView>,
)
    requires
        frame.event_type is OutputItemDone,
        frame.payload matches EventPayloadView::OutputItemDone { item_type, output_index, .. }
            && item_type is FunctionCall && st.active.contains_key(output_index)
            && st.active[output_index] == FunctionCallShapeView::Custom(state),
    ensures
        ({
            let (after, out) = crate::function_sse::translated(st, frame, Some(c), search);
            let input = if state.input_done {
                state.emitted_input
            } else {
                crate::custom::input_or_arguments(crate::accumulator::call_arguments(c))
            };
            let k = frame.payload->OutputItemDone_output_index;
            &&& out is Ok <==> state.input_done || input_goes_on(state, c)
            &&& after.active == st.active.remove(k)
            &&& out matches Ok(frames) ==> {
                let done = frames.last();
                &&& frames.len() >= 1
                &&& closes_input(frames.drop_last(), state, input)
                &&& is_event(
                    done,
                    SSEEventType::OutputItemDone,
                    "response.output_item.done"@,
                    state.output_index,
                )
                &&& shows_item(
                    done,
                    "custom_tool_call"@,
                    state.public_item_id,
                    c.item.call_id,
                    "completed"@,
                )
                &&& item_text(done, "name"@) == Some(c.item.name)
                &&& item_text(done, "input"@) == Some(input)
            }
        }),
{
    item_keys_differ();
    let input = crate::custom::input_or_arguments(crate::accumulator::call_arguments(c));
    input_events_say(state, input);
    input_events_say(state, input.skip(state.emitted_input.len() as int));
    let out = crate::function_sse::translated(st, frame, Some(c), search).1;
    let (after, more) = crate::function_sse::input_closed(
        state,
        crate::accumulator::call_arguments(c),
    );
    if let Ok(more) = more {
        let frames = out->Ok_0;
        assert(frames == (Seq::<EventFrameView>::empty() + more).push(
            crate::function_sse::custom_finished(after, c),
        ));
        assert(frames.drop_last() =~= more);
    }
}

/// A custom call has one identity, one `call_id` and one name in the events in which it begins
/// and is done, whatever came between them.
pub proof fn custom_calls_keep_their_identity(
    st: TranslatorView,
    added: EventFrameView,
    begun: AccumulatedFunctionCallView,
    later: TranslatorView,
    done: EventFrameView,
    state: CustomCallStateView,
    finished: AccumulatedFunctionCallView,
)
    requires
        added.payload matches EventPayloadView::OutputItemAdded { item_type, name, .. } && item_type
            is FunctionCall && (name matches Some(name) && st.tool_types.contains_key(name)
            && st.tool_types[name] is Custom),
        done.event_type is OutputItemDone,
        done.payload matches EventPayloadView::OutputItemDone { item_type, output_index, .. }
            && item_type is FunctionCall && later.active.contains_key(output_index)
            && later.active[output_index] == FunctionCallShapeView::Custom(state),
        crate::function_sse::translated(
            st,
            added,
            Some(begun),
            None,
        ).0.active[added.payload->OutputItemAdded_output_index]->Custom_0.public_item_id
            == state.public_item_id,
        finished.item.call_id == begun.item.call_id,
        finished.item.name == begun.item.name,
        crate::function_sse::translated(later, done, Some(finished), None).1 is Ok,
    ensures
        ({
            let first = crate::function_sse::translated(st, added, Some(begun), None).1->Ok_0[0];
            let last = crate::function_sse::translated(
                later,
                done,
                Some(finished),
                None,
            ).1->Ok_0.last();
            &&& item_text(first, "id"@) is Some
            &&& item_text(first, "id"@) == item_text(last, "id"@)
            &&& item_text(first, "call_id"@) == item_text(last, "call_id"@)
            &&& item_text(first, "name"@) == item_text(last, "name"@)
        }),
{
    custom_calls_are_shown_begun(st, added, begun, None);
    custom_calls_are_shown_done(later, done, state, finished, None);
}

/// Arguments of a custom call that arrive give the client at most one more piece of its input,
/// which goes on from what was sent.
pub proof fn custom_inputs_grow(
    st: TranslatorView,
    frame: EventFrameView,
    state: CustomCallStateView,
    c: AccumulatedFunctionCallView,
    search: Option<ToolSearchCallView>,
)
    requires
        frame.event_type is FunctionCallArgumentsDelta,
        frame.payload matches EventPayloadView::FunctionCallArgsDelta { output_index, .. }
            && st.active.contains_key(output_index) && st.active[output_index]
            == FunctionCallShapeView::Custom(state),
    ensures
        ({
            let (after, out) = crate::function_sse::translated(st, frame, Some(c), search);
            let k = frame.payload->FunctionCallArgsDelta_output_index;
            &&& after.active.contains_key(k)
            &&& after.active[k] matches FunctionCallShapeView::Custom(next)
                && next.public_item_id == state.public_item_id && next.output_index
                == state.output_index && next.input_done == state.input_done
                && (out matches Ok(frames) ==> if frames.len() == 0 {
                next.emitted_input == state.emitted_input
            } else {
                frames.len() == 1 && (exists|delta: Seq<char>| #[trigger]
                    is_input_delta(frames[0], state, delta) && next.emitted_input
                        == state.emitted_input + delta)
            })
        }),
{
    let arguments = crate::accumulator::call_arguments(c);
    let (read, more) = crate::function_sse::more_input(state, arguments);
    if let Ok(Some(delta)) = more {
        input_events_say(read, delta);
        let shown = crate::function_sse::input_event(
            read,
            SSEEventType::CustomToolCallInputDelta,
            "delta"@,
            delta,
        );
        assert(is_input_delta(shown, state, delta));
        if let Ok(frames) = crate::function_sse::translated(st, frame, Some(c), search).1 {
            assert(frames == seq![shown]);
            assert(is_input_delta(frames[0], state, delta));
        }
    }
}

/// Whether an event speaks of a function call.
pub open spec fn is_of_function_call(frame: EventFrameView) -> bool {
    match frame.payload {
        EventPayloadView::OutputItemAdded { item_type, .. } => item_type is FunctionCall,
        EventPayloadView::OutputItemDone { item_type, .. } => item_type is FunctionCall,
        EventPayloadView::FunctionCallArgsDelta { .. } => true,
        EventPayloadView::FunctionCallArgsDone { .. } => true,
        _ => false,
    }
}

/// An event that is of no function call is passed on as it is, and changes nothing but that a
/// failure is remembered.
pub proof fn other_events_pass(
    st: TranslatorView,
    frame: EventFrameView,
    call: Option<AccumulatedFunctionCallView>,
    search: Option<ToolSearchCallView>,
)
    requires
        !is_of_function_call(frame),
    ensures
        crate::function_sse::translated(st, frame, call, search).1 == Ok::<_, ExecutorErrorView>(
            seq![frame],
        ),
        ({
            let after = crate::function_sse::translated(st, frame, call, search).0;
            &&& after == TranslatorView {
                upstream_terminal_failure: after.upstream_terminal_failure,
                ..st
            }
            &&& after.upstream_terminal_failure == (st.upstream_terminal_failure
                || frame.event_type is ResponseFailed || frame.event_type is ResponseIncomplete)
        }),
{
}

/// Whether the model's name for a call is that of a function which the client runs.
pub open spec fn client_runs(st: TranslatorView, name: Seq<char>) -> bool {
    !st.tool_types.contains_key(name) || st.tool_types[name] is Function || st.tool_types[name]
        is CodexNamespace
}

/// Every event of a call that the client runs is passed on as it is: that it begins, each piece
/// of its arguments, the whole arguments, and that it is done.
pub proof fn client_calls_pass(
    st: TranslatorView,
    frame: EventFrameView,
    call: Option<AccumulatedFunctionCallView>,
    search: Option<ToolSearchCallView>,
)
    requires
        match frame.payload {
            EventPayloadView::OutputItemAdded { item_type, name, .. } => item_type is FunctionCall
                && (name matches Some(name) && client_runs(st, name)),
            EventPayloadView::FunctionCallArgsDelta { output_index, .. } => st.active.contains_key(
                output_index,
            ) && st.active[output_index] == FunctionCallShapeView::PublicFunction,
            EventPayloadView::FunctionCallArgsDone { output_index, .. } => st.active.contains_key(
                output_index,
            ) && st.active[output_index] == FunctionCallShapeView::PublicFunction,
            EventPayloadView::OutputItemDone { item_type, output_index, .. } => item_type
                is FunctionCall && st.active.contains_key(output_index) && st.active[output_index]
                == FunctionCallShapeView::PublicFunction,
            _ => false,
        },
    ensures
        crate::function_sse::translated(st, frame, call, search).1 == Ok::<_, ExecutorErrorView>(
            seq![frame],
        ),
        frame.payload matches EventPayloadView::OutputItemAdded { output_index, .. } ==> {
            let after = crate::function_sse::translated(st, frame, call, search).0;
            after.active.contains_key(output_index) && after.active[output_index]
                == FunctionCallShapeView::PublicFunction
        },
{
    assert(Seq::<EventFrameView>::empty().push(frame) =~= seq![frame]);
}

/// Whether an event is a piece of the arguments of the call at a place.
pub open spec fn is_piece_at(frame: EventFrameView, output_index: u32) -> bool {
    match frame.payload {
        EventPayloadView::FunctionCallArgsDelta { output_index: k, .. } => k == output_index,
        _ => false,
    }
}

/// Whether events are what arrived of one call before its name: that it begins, then pieces of
/// its arguments.
pub open spec fn is_unnamed_start(frames: Seq<EventFrameView>, output_index: u32) -> bool {
    &&& frames.len() > 0
    &&& crate::function_sse::added_id(frames[0]) is Some
    &&& forall|i: int|
        0 < i < frames.len() ==> is_piece_at(#[trigger] frames[i], output_index)
}

proof fn public_replay_is_whole(
    frames: Seq<EventFrameView>,
    st: TranslatorView,
    call: Option<AccumulatedFunctionCallView>,
    output_index: u32,
    n: int,
)
    requires
        is_unnamed_start(frames, output_index),
        1 <= n <= frames.len(),
        st.active.contains_key(output_index),
        st.active[output_index] == FunctionCallShapeView::PublicFunction,
    ensures
        crate::function_sse::replayed(frames, st, seq![frames[0]], call, n) == (
            st,
            Ok::<_, ExecutorErrorView>(frames.take(n)),
        ),
    decreases n,
{
    if n == 1 {
        assert(crate::function_sse::replayed(frames, st, seq![frames[0]], call, 0) == (
            st,
            Ok::<_, ExecutorErrorView>(seq![frames[0]]),
        ));
        assert(frames.take(1) =~= seq![frames[0]]);
    } else {
        public_replay_is_whole(frames, st, call, output_index, n - 1);
        let last = frames[n - 1];
        assert(frames.take(n - 1) + seq![last] =~= frames.take(n));
    }
}

/// A call that the client runs and whose name came late is shown whole: the events that waited
/// for the name come first, in the order in which they arrived, and then the event that names it.
pub proof fn late_names_lose_nothing(
    st: TranslatorView,
    frame: EventFrameView,
    call: Option<AccumulatedFunctionCallView>,
    search: Option<ToolSearchCallView>,
)
    requires
        frame.event_type is FunctionCallArgumentsDone,
        frame.payload matches EventPayloadView::FunctionCallArgsDone { output_index, name, .. }
            && client_runs(st, name) && !st.active.contains_key(output_index)
            && st.pending_unnamed.contains_key(output_index) && is_unnamed_start(
            st.pending_unnamed[output_index].frames,
            output_index,
        ),
    ensures
        crate::function_sse::translated(st, frame, call, search).1 == Ok::<_, ExecutorErrorView>(
            st.pending_unnamed[frame.payload->FunctionCallArgsDone_output_index].frames.push(frame),
        ),
        !crate::function_sse::translated(
            st,
            frame,
            call,
            search,
        ).0.pending_unnamed.contains_key(frame.payload->FunctionCallArgsDone_output_index),
{
    let k = frame.payload->FunctionCallArgsDone_output_index;
    let name = frame.payload->FunctionCallArgsDone_name;
    let item_id = frame.payload->FunctionCallArgsDone_item_id;
    let frames = st.pending_unnamed[k].frames;
    let taken = crate::function_sse::pending_taken(st, k);
    let arrived = crate::function_sse::first_added(frames, 0);
    assert(arrived == Some(frames[0]));
    let start_id = crate::function_sse::added_id(frames[0])->Some_0;
    let (begun, sent) = crate::function_sse::started(taken, start_id, name, k, arrived, call);
    public_replay_is_whole(frames, begun, call, k, frames.len() as int);
    assert(frames.take(frames.len() as int) =~= frames);
}

/// An event of a call whose name is not known waits, and the client is sent nothing: it is kept
/// behind the others of its call, unless too many calls or bytes wait already.
pub proof fn unnamed_calls_wait(
    st: TranslatorView,
    frame: EventFrameView,
    call: Option<AccumulatedFunctionCallView>,
    search: Option<ToolSearchCallView>,
    output_index: u32,
)
    requires
        match frame.payload {
            EventPayloadView::OutputItemAdded { item_type, name, output_index: k, .. } => item_type
                is FunctionCall && name is None && k == output_index,
            EventPayloadView::FunctionCallArgsDelta { output_index: k, .. } => k == output_index
                && !st.active.contains_key(output_index),
            _ => false,
        },
        !(frame.event_type is ResponseFailed),
        !(frame.event_type is ResponseIncomplete),
    ensures
        ({
            let (after, out) = crate::function_sse::translated(st, frame, call, search);
            let kept = if st.pending_unnamed.contains_key(output_index) {
                st.pending_unnamed[output_index].frames
            } else {
                Seq::empty()
            };
            &&& out matches Ok(frames) ==> frames.len() == 0 && after.pending_unnamed.contains_key(
                output_index,
            ) && after.pending_unnamed[output_index].frames == kept.push(frame)
            &&& out is Err ==> after == st && (st.pending_bytes + crate::events::wire_bytes(
                frame.wire,
            ) > 262_144 || (!st.pending_unnamed.contains_key(output_index)
                && st.pending_unnamed.dom().len() >= 128))
        }),
{
}

/// Whether a place is taken by a call that the gateway runs, or one whose name is not known.
pub open spec fn holds_back(st: TranslatorView, place: u32) -> bool {
    st.first_gateway_output_index == Some(place) || exists|k: u32| #[trigger]
        st.pending_unnamed.contains_key(k) && st.pending_unnamed[k].output_index == place
}

/// Output waits from the first place on that a call of the gateway, or one without a name,
/// takes; where there is none nothing waits.
pub proof fn output_waits_from_the_first_such_call(st: TranslatorView, place: u32)
    ensures
        holds_back(st, place) && (forall|p: u32| #[trigger] holds_back(st, p) ==> place <= p)
            ==> crate::function_sse::deferred_from(st) == Some(place),
        (forall|p: u32| !(#[trigger] holds_back(st, p))) ==> crate::function_sse::deferred_from(
            st,
        ) is None,
{
    if holds_back(st, place) && (forall|p: u32| #[trigger] holds_back(st, p) ==> place <= p) {
        if let Some(first) = st.first_gateway_output_index {
            assert(holds_back(st, first));
        }
        assert forall|k: u32| #[trigger] st.pending_unnamed.contains_key(k) implies place
            <= st.pending_unnamed[k].output_index by {
            assert(holds_back(st, st.pending_unnamed[k].output_index));
        }
        assert(crate::function_sse::is_first_deferred(st, place));
        let found = crate::function_sse::deferred_from(st);
        assert(found is Some);
        let other = found->0;
        assert(crate::function_sse::is_first_deferred(st, other));
        assert(holds_back(st, other));
    }
    if forall|p: u32| !(#[trigger] holds_back(st, p)) {
        if let Some(first) = st.first_gateway_output_index {
            assert(holds_back(st, first));
        }
        assert forall|k: u32| !(#[trigger] st.pending_unnamed.contains_key(k)) by {
            if st.pending_unnamed.contains_key(k) {
                assert(holds_back(st, st.pending_unnamed[k].output_index));
            }
        }
        assert(st.pending_unnamed =~= Map::empty());
    }
}

/// A call that the gateway runs is not shown, and holds back output from the first such place on.
pub proof fn gateway_calls_begin_unseen(
    st: TranslatorView,
    frame: EventFrameView,
    call: Option<AccumulatedFunctionCallView>,
    search: Option<ToolSearchCallView>,
)
    requires
        frame.payload matches EventPayloadView::OutputItemAdded { item_type, name, .. } && item_type
            is FunctionCall && (name matches Some(name) && st.tool_types.contains_key(name) && (
        st.tool_types[name] is Mcp || st.tool_types[name] is WebSearch || st.tool_types[name]
            is FileSearch || st.tool_types[name] is CodeInterpreter)),
    ensures
        ({
            let (after, out) = crate::function_sse::translated(st, frame, call, search);
            let k = frame.payload->OutputItemAdded_output_index;
            &&& out matches Ok(frames) && frames.len() == 0
            &&& after.active.contains_key(k)
            &&& after.active[k] == FunctionCallShapeView::GatewayOwned
            &&& after.first_gateway_output_index matches Some(first) && first <= k && (match st.first_gateway_output_index {
                Some(before) => first <= before && (first == before || first == k),
                None => first == k,
            })
        }),
{
}

/// A search that begins is shown as one event: the item is a tool-search call in progress that
/// the client runs, with the `call_id` of the model's call, under the public form of its
/// identity, and without arguments.
pub proof fn searches_are_shown_begun(
    st: TranslatorView,
    frame: EventFrameView,
    c: AccumulatedFunctionCallView,
    search: Option<ToolSearchCallView>,
)
    requires
        frame.event_type is OutputItemAdded,
        frame.payload matches EventPayloadView::OutputItemAdded { item_id, item_type, name, output_index, .. }
            && item_type is FunctionCall && (name matches Some(name) && st.tool_types.contains_key(
            name,
        ) && st.tool_types[name] is ToolSearch) && !st.search_call_seen && !st.active.contains_key(
            output_index,
        ) && !st.pending_unnamed.contains_key(output_index) && c.item.namespace is None
            && frame.wire.output_index == Some(output_index as u64) && !crate::text::blank(item_id)
            && !crate::text::blank(c.item.call_id),
    ensures
        ({
            let (after, out) = crate::function_sse::translated(st, frame, Some(c), search);
            let k = frame.payload->OutputItemAdded_output_index;
            let id = crate::search::search_item_id(frame.payload->OutputItemAdded_item_id);
            &&& out matches Ok(frames) && frames.len() == 1 && is_event(
                frames[0],
                SSEEventType::OutputItemAdded,
                "response.output_item.added"@,
                k,
            ) && shows_item(
                frames[0],
                "tool_search_call"@,
                id,
                c.item.call_id,
                "in_progress"@,
            ) && item_text(frames[0], "execution"@) == Some("client"@) && item_part(
                frames[0],
                "arguments"@,
            ) == Some(JsonView::Object(Map::empty()))
            &&& after.search_call_seen
            &&& after.active.contains_key(k)
            &&& after.active[k] matches FunctionCallShapeView::ToolSearch(state)
                && state.public_item_id == id && state.call_id == c.item.call_id
                && state.upstream_item_id == frame.payload->OutputItemAdded_item_id
        }),
{
    item_keys_differ();
}

/// A search that is done is shown once, as done, with the identity and the `call_id` under which
/// it began and the arguments that the model's call holds; or the stream is refused.
pub proof fn searches_are_shown_done(
    st: TranslatorView,
    frame: EventFrameView,
    state: crate::function_sse::ToolSearchCallStateView,
    call: Option<AccumulatedFunctionCallView>,
    search: Option<ToolSearchCallView>,
)
    requires
        frame.event_type is OutputItemDone,
        frame.payload matches EventPayloadView::OutputItemDone { item_type, output_index, .. }
            && item_type is FunctionCall && st.active.contains_key(output_index)
            && st.active[output_index] == FunctionCallShapeView::ToolSearch(state),
    ensures
        crate::function_sse::translated(st, frame, call, search).1 matches Ok(frames) ==> {
            &&& frames.len() == 1
            &&& is_event(
                frames[0],
                SSEEventType::OutputItemDone,
                "response.output_item.done"@,
                state.output_index,
            )
            &&& shows_item(
                frames[0],
                "tool_search_call"@,
                state.public_item_id,
                state.call_id,
                "completed"@,
            )
            &&& item_text(frames[0], "execution"@) == Some("client"@)
            &&& item_text(frame, "arguments"@) matches Some(arguments) && item_part(
                frames[0],
                "arguments"@,
            ) == crate::json::parsed_json(arguments)
            &&& item_part(frames[0], "arguments"@) is Some
        },
{
    item_keys_differ();
    let out = crate::function_sse::translated(st, frame, call, search).1;
    if let Ok(frames) = out {
        assert(frames.len() == 1);
    }
}

/// A stream that calls a function which is withheld is refused at once, however the call shows:
/// when it begins, when its arguments close, when it is done, or in the finished response. What
/// was accumulated stays as it was.
pub proof fn withheld_calls_end_the_stream(
    a: crate::accumulator::AccumulatorView,
    st: TranslatorView,
    frame: EventFrameView,
    fresh: Seq<char>,
    name: Seq<char>,
)
    requires
        st.withheld_function_names.contains(name),
        frame.payload is OutputItemAdded && frame.payload->OutputItemAdded_item_type
            is FunctionCall && frame.payload->OutputItemAdded_name == Some(name) || frame.payload
            is FunctionCallArgsDone && frame.payload->FunctionCallArgsDone_name == name
            || frame.payload is OutputItemDone && frame.payload->OutputItemDone_item_type
            is FunctionCall && frame.payload->OutputItemDone_item is Object
            && crate::accumulator_laws::says(
            frame.payload->OutputItemDone_item->Object_0,
            "name"@,
            name,
        ),
    ensures
        crate::function_sse::frame_translated(a, st, frame, fresh).2 is Err,
        crate::function_sse::frame_translated(a, st, frame, fresh).0 == a,
        crate::function_sse::frame_translated(a, st, frame, fresh).1 == st,
{
}

/// A finished response that holds a call of a withheld function is refused, wherever in its
/// output the call stands.
pub proof fn withheld_calls_in_responses_end_the_stream(
    a: crate::accumulator::AccumulatorView,
    st: TranslatorView,
    frame: EventFrameView,
    fresh: Seq<char>,
    response: Map<Seq<char>, JsonView>,
    items: Seq<JsonView>,
    i: int,
    name: Seq<char>,
)
    requires
        st.withheld_function_names.contains(name),
        frame.event_type is ResponseCompleted,
        frame.wire.rest.contains_key("response"@),
        frame.wire.rest["response"@] == JsonView::Object(response),
        response.contains_key("output"@),
        response["output"@] == JsonView::Array(items),
        0 <= i < items.len(),
        items[i] is Object,
        crate::accumulator_laws::says(items[i]->Object_0, "type"@, "function_call"@),
        crate::accumulator_laws::says(items[i]->Object_0, "name"@, name),
    ensures
        crate::function_sse::frame_translated(a, st, frame, fresh).2 is Err,
        crate::function_sse::frame_translated(a, st, frame, fresh).0 == a,
{
    withheld_call_is_seen(items, st.withheld_function_names, i, 0);
}

proof fn withheld_call_is_seen(items: Seq<JsonView>, withheld: Set<Seq<char>>, i: int, n: int)
    requires
        0 <= n <= i < items.len(),
        items[i] is Object,
        crate::accumulator_laws::says(items[i]->Object_0, "type"@, "function_call"@),
        items[i]->Object_0.contains_key("name"@),
        items[i]->Object_0["name"@] is Text,
        withheld.contains(items[i]->Object_0["name"@]->Text_0),
    ensures
        crate::function_sse::holds_withheld(items, withheld, n),
    decreases i - n,
{
    if n < i {
        withheld_call_is_seen(items, withheld, i, n + 1);
    }
}

/// An event that is of no function call and ends no response is accumulated and passed on as it
/// is, unless accumulating it is an error.
pub proof fn other_events_are_accumulated_and_passed_on(
    a: crate::accumulator::AccumulatorView,
    st: TranslatorView,
    frame: EventFrameView,
    fresh: Seq<char>,
)
    requires
        !is_of_function_call(frame),
        !(frame.event_type is ResponseCompleted),
        a.processing_error is None,
        crate::accumulator::event_step(
            crate::accumulator::details_captured(a, frame),
            frame,
            fresh,
        ).processing_error is None,
    ensures
        ({
            let (a1, st1, out) = crate::function_sse::frame_translated(a, st, frame, fresh);
            &&& out is Ok
            &&& out->Ok_0.frames == seq![frame]
            &&& a1 == crate::accumulator::event_step(
                crate::accumulator::details_captured(a, frame),
                frame,
                fresh,
            )
            &&& st1.active == st.active && st1.pending_unnamed == st.pending_unnamed
        }),
{
    other_events_pass(
        st,
        frame,
        crate::function_sse::event_call(a, frame),
        crate::function_sse::event_search(a, frame),
    );
}

/// A line without an event changes nothing and gives nothing.
pub proof fn lines_without_events_give_nothing(
    a: crate::accumulator::AccumulatorView,
    st: TranslatorView,
    line: Seq<char>,
    fresh: Seq<char>,
)
    requires
        crate::events::line_frame(line) is None,
    ensures
        crate::function_sse::line_translated(a, st, line, fresh).0 == a,
        crate::function_sse::line_translated(a, st, line, fresh).1 == st,
        crate::function_sse::line_translated(a, st, line, fresh).2 is Ok,
        crate::function_sse::line_translated(a, st, line, fresh).2->Ok_0 is None,
{
}

/// Arguments may have 262144 bytes and no more; as many bytes may wait for names, of 128 calls
/// at most.
pub proof fn limits_are_kept(
    st: TranslatorView,
    output_index: u32,
    frame: EventFrameView,
    text: Seq<char>,
)
    ensures
        crate::function_sse::fits(text) <==> vstd::utf8::encode_utf8(text).len() <= 262144,
        crate::function_sse::may_wait(st, output_index, frame) is Ok <==> (
        st.pending_unnamed.contains_key(output_index) || st.pending_unnamed.dom().len() < 128)
            && st.pending_bytes + crate::events::wire_bytes(frame.wire) <= 262144,
{
}

/// A search may begin once in a stream: a second one is refused, and so is one in a namespace or
/// without the identities that it needs.
pub proof fn searches_begin_once(
    st: TranslatorView,
    item_id: Seq<char>,
    name: Seq<char>,
    output_index: u32,
    arrived: Option<EventFrameView>,
    call: Option<AccumulatedFunctionCallView>,
)
    requires
        st.tool_types.contains_key(name),
        st.tool_types[name] is ToolSearch,
        st.search_call_seen || crate::text::blank(item_id) || call is None || (call is Some && (
        call->0.item.namespace is Some || crate::text::blank(call->0.item.call_id))),
    ensures
        crate::function_sse::started(st, item_id, name, output_index, arrived, call).1 is Err,
        crate::function_sse::started(st, item_id, name, output_index, arrived, call).0 == st,
{
}

/// The input of a custom call begins behind the opening quote of the arguments' first field,
/// `input`.
pub proof fn inputs_begin_where_they_are(body: Seq<char>)
    ensures
        crate::custom_input::encoded_input("{\"input\":\""@ + body) == Some(body),
{
    reveal_strlit("{\"input\":\"");
    reveal_strlit("{}");
    reveal_strlit("{");
    reveal_strlit("\"input\"");
    reveal_strlit(":");
    reveal_strlit("\"");
    let arguments = "{\"input\":\""@ + body;
    assert("{\"input\":\""@.len() == 10);
    assert(arguments[0] == '{' && arguments[1] == '"');
    assert(crate::text::trim_start_text(arguments) == arguments);
    assert(arguments.take(2)[1] == '"');
    assert("{}"@[1] == '}');
    assert(!crate::text::has_prefix(arguments, "{}"@));
    assert(arguments.take(1) =~= "{"@);
    let fields = arguments.skip(1);
    assert(fields[0] == '"');
    assert(crate::text::trim_start_text(fields) == fields);
    assert(fields.take(7) =~= "\"input\""@);
    let colon = fields.skip(7);
    assert(colon[0] == ':');
    assert(crate::text::trim_start_text(colon) == colon);
    assert(colon.take(1) =~= ":"@);
    let value = colon.skip(1);
    assert(value[0] == '"');
    assert(crate::text::trim_start_text(value) == value);
    assert(value.take(1) =~= "\""@);
    assert(value.skip(1) =~= body);
}

/// The part of an input that no later byte can change reaches to its closing quote, or to its
/// end where it has neither a quote nor an escape; an escape that is not whole is left out.
pub proof fn whole_parts_end_where_they_must(bytes: Seq<u8>, i: int, k: int)
    requires
        0 <= i <= k <= bytes.len(),
        forall|j: int| i <= j < k ==> #[trigger] bytes[j] != 0x22 && bytes[j] != 0x5c,
    ensures
        k == bytes.len() ==> crate::custom_input::whole_prefix(bytes, i) == k,
        k < bytes.len() && bytes[k] == 0x22 ==> crate::custom_input::whole_prefix(bytes, i) == k,
        k == bytes.len() - 1 && bytes[k] == 0x5c ==> crate::custom_input::whole_prefix(bytes, i)
            == k,
        k + 1 < bytes.len() && bytes[k] == 0x5c && bytes[k + 1] != 0x75
            ==> crate::custom_input::whole_prefix(bytes, i) == crate::custom_input::whole_prefix(
            bytes,
            k + 2,
        ),
        k + 1 < bytes.len() && bytes[k] == 0x5c && bytes[k + 1] == 0x75 && k + 6 > bytes.len()
            ==> crate::custom_input::whole_prefix(bytes, i) == k,
    decreases k - i,
{
    if i < k {
        assert(bytes[i] != 0x22 && bytes[i] != 0x5c);
        whole_parts_end_where_they_must(bytes, i + 1, k);
    }
}

/// A call that the gateway runs stays unseen to its end: no piece of its arguments, no closing
/// and no done item of it is sent.
pub proof fn gateway_calls_stay_unseen(
    st: TranslatorView,
    frame: EventFrameView,
    call: Option<AccumulatedFunctionCallView>,
    search: Option<ToolSearchCallView>,
    k: u32,
)
    requires
        st.active.contains_key(k),
        st.active[k] is GatewayOwned,
        frame.payload is FunctionCallArgsDelta && frame.payload->FunctionCallArgsDelta_output_index
            == k || frame.payload is FunctionCallArgsDone
            && frame.payload->FunctionCallArgsDone_output_index == k || frame.payload
            is OutputItemDone && frame.payload->OutputItemDone_item_type is FunctionCall
            && frame.payload->OutputItemDone_output_index == k,
    ensures
        crate::function_sse::translated(st, frame, call, search).1 is Ok,
        crate::function_sse::translated(st, frame, call, search).1->Ok_0.len() == 0,
        frame.payload is OutputItemDone ==> !crate::function_sse::translated(
            st,
            frame,
            call,
            search,
        ).0.active.contains_key(k),
{
}

/// The arguments of a search are not shown while they arrive. A piece, a closing or a done item
/// that names another item or another call is refused.
pub proof fn searches_stay_themselves(
    st: TranslatorView,
    frame: EventFrameView,
    state: crate::function_sse::ToolSearchCallStateView,
    call: Option<AccumulatedFunctionCallView>,
    search: Option<ToolSearchCallView>,
    k: u32,
)
    requires
        st.active.contains_key(k),
        st.active[k] == FunctionCallShapeView::ToolSearch(state),
    ensures
        ({
            let out = crate::function_sse::translated(st, frame, call, search).1;
            let p = frame.payload;
            &&& p is FunctionCallArgsDelta && p->FunctionCallArgsDelta_output_index == k ==> {
                let same = p->FunctionCallArgsDelta_item_id == state.upstream_item_id && (
                p->FunctionCallArgsDelta_call_id is Some ==> p->FunctionCallArgsDelta_call_id->0
                    == state.call_id);
                &&& same ==> out is Ok && out->Ok_0.len() == 0
                &&& !same ==> out is Err
            }
            &&& p is FunctionCallArgsDone && p->FunctionCallArgsDone_output_index == k && (
            p->FunctionCallArgsDone_item_id != state.upstream_item_id || call is None || (
            p->FunctionCallArgsDone_call_id is Some && p->FunctionCallArgsDone_call_id->0
                != state.call_id)) ==> out is Err
            &&& p is FunctionCallArgsDone && p->FunctionCallArgsDone_output_index == k && out is Ok
                ==> out->Ok_0.len() == 0
            &&& p is OutputItemDone && p->OutputItemDone_item_type is FunctionCall
                && p->OutputItemDone_output_index == k && (p->OutputItemDone_item_id
                != state.upstream_item_id || (call is None && search is None) || (call is Some && (
            call->0.item.call_id != state.call_id || call->0.item.id != state.upstream_item_id
                || call->0.output_index != state.output_index))) ==> out is Err
        }),
{
}

/// A search is shown done where everything that arrived of it agrees: the item that is done is
/// the call that was accumulated, with its ids and its arguments.
pub proof fn agreeing_searches_finish(
    st: TranslatorView,
    frame: EventFrameView,
    state: crate::function_sse::ToolSearchCallStateView,
    call: AccumulatedFunctionCallView,
    search: Option<ToolSearchCallView>,
    item: Map<Seq<char>, JsonView>,
    text: Seq<char>,
    arguments: Map<Seq<char>, JsonView>,
)
    requires
        frame.payload is OutputItemDone,
        frame.payload->OutputItemDone_item_type is FunctionCall,
        frame.payload->OutputItemDone_item_id == state.upstream_item_id,
        st.active.contains_key(frame.payload->OutputItemDone_output_index),
        st.active[frame.payload->OutputItemDone_output_index] == FunctionCallShapeView::ToolSearch(
            state,
        ),
        frame.wire.rest.contains_key("item"@),
        frame.wire.rest["item"@] == JsonView::Object(item),
        crate::accumulator_laws::says(item, "type"@, "function_call"@),
        crate::accumulator_laws::says(item, "name"@, "tool_search"@),
        crate::accumulator_laws::says(item, "status"@, "completed"@),
        crate::accumulator_laws::says(item, "id"@, state.upstream_item_id),
        crate::accumulator_laws::says(item, "call_id"@, state.call_id),
        crate::accumulator_laws::says(item, "arguments"@, text),
        !item.contains_key("namespace"@),
        call.item.id == state.upstream_item_id,
        call.item.call_id == state.call_id,
        call.output_index == state.output_index,
        call.item.arguments == text,
        state.public_item_id == crate::search::search_item_id(state.upstream_item_id),
        !crate::text::blank(state.upstream_item_id),
        !crate::text::blank(state.call_id),
        !crate::text::blank(text),
        text.len() > 0,
        vstd::utf8::encode_utf8(text).len() <= 262144,
        crate::json::parsed_json(text) == Some(JsonView::Object(arguments)),
    ensures
        crate::function_sse::translated(st, frame, Some(call), search).1 is Ok,
        crate::function_sse::translated(st, frame, Some(call), search).1->Ok_0.len() == 1,
{
}

/// A call whose name is that of a custom tool or of a search is that in the stream; a name that
/// the request does not declare is a function of the client.
pub proof fn names_say_what_is_called(st: TranslatorView, name: Seq<char>)
    ensures
        st.tool_types.contains_key(name) ==> crate::function_sse::type_of(st, name)
            == st.tool_types[name],
        !st.tool_types.contains_key(name) ==> crate::function_sse::type_of(st, name) is Function,
{
}

/// A search did not finish exactly where it still is streamed, or, while searches are used, where
/// an item that was added still waits for its name.
pub proof fn unfinished_searches_are_those_left(st: TranslatorView, id: Seq<char>, k: u32, i: int)
    ensures
        st.active.contains_key(k) && st.active[k] is ToolSearch
            && st.active[k]->ToolSearch_0.upstream_item_id == id
            ==> crate::function_sse::unfinished_search(st, id) && crate::function_sse::any_search(
            st,
        ),
        st.tool_search_enabled && st.pending_unnamed.contains_key(k) && 0 <= i
            < st.pending_unnamed[k].frames.len() && st.pending_unnamed[k].frames[i].payload
            is OutputItemAdded
            && st.pending_unnamed[k].frames[i].payload->OutputItemAdded_item_id == id && id.len()
            > 0 ==> crate::function_sse::unfinished_search(st, id),
        (forall|j: u32| #[trigger] st.active.contains_key(j) ==> !(st.active[j] is ToolSearch))
            ==> !crate::function_sse::any_search(st),
        (forall|j: u32| #[trigger] st.active.contains_key(j) ==> !(st.active[j] is ToolSearch))
            && !st.tool_search_enabled ==> !crate::function_sse::unfinished_search(st, id),
{
    if st.active.contains_key(k) && st.active[k] is ToolSearch {
        assert(crate::function_sse::searches_at(st, k));
        let own = st.active[k]->ToolSearch_0.upstream_item_id;
        assert(crate::function_sse::search_id_at(st, k) == Some(own));
    }
    if crate::function_sse::waiting_id(st, k, i) == Some(id) {
        assert(st.tool_search_enabled ==> crate::function_sse::unfinished_search(st, id));
    }
}

/// What waits for a name is counted: each event that is kept adds its bytes, and what is taken
/// out gives them back.
pub proof fn waiting_bytes_are_counted(st: TranslatorView, frame: EventFrameView, k: u32)
    requires
        crate::function_sse::buffered(st, k, frame).1 is Ok,
    ensures
        ({
            let after = crate::function_sse::buffered(st, k, frame).0;
            let bytes = crate::events::wire_bytes(frame.wire);
            &&& after.pending_bytes == st.pending_bytes + bytes
            &&& after.pending_unnamed.contains_key(k)
            &&& after.pending_unnamed[k].output_index == (if st.pending_unnamed.contains_key(k) {
                st.pending_unnamed[k].output_index
            } else {
                k
            })
            &&& !st.pending_unnamed.contains_key(k) ==> after.pending_unnamed[k].frames == seq![
                frame,
            ]
            &&& st.pending_unnamed.contains_key(k) ==> after.pending_unnamed[k].frames
                == st.pending_unnamed[k].frames.push(frame)
            &&& !st.pending_unnamed.contains_key(k) && bytes <= usize::MAX
                ==> crate::function_sse::pending_taken(after, k).pending_bytes
                == st.pending_bytes && !crate::function_sse::pending_taken(
                after,
                k,
            ).pending_unnamed.contains_key(k)
            &&& forall|j: u32|
                j != k ==> (#[trigger] after.pending_unnamed.contains_key(j))
                    == st.pending_unnamed.contains_key(j)
        }),
{
    let after = crate::function_sse::buffered(st, k, frame).0;
    if !st.pending_unnamed.contains_key(k) {
        assert(after.pending_unnamed[k].frames =~= seq![frame]);
    }
}

/// A search that is done with other arguments than those that arrived, under other ids, or that
/// is not the finished call of a search, is refused.
pub proof fn disagreeing_searches_are_refused(
    st: TranslatorView,
    frame: EventFrameView,
    state: crate::function_sse::ToolSearchCallStateView,
    call: AccumulatedFunctionCallView,
    search: Option<ToolSearchCallView>,
    item: Map<Seq<char>, JsonView>,
    text: Seq<char>,
    told: Map<Seq<char>, JsonView>,
    arrived: Map<Seq<char>, JsonView>,
)
    requires
        frame.payload is OutputItemDone,
        frame.payload->OutputItemDone_item_type is FunctionCall,
        st.active.contains_key(frame.payload->OutputItemDone_output_index),
        st.active[frame.payload->OutputItemDone_output_index] == FunctionCallShapeView::ToolSearch(
            state,
        ),
        frame.wire.rest.contains_key("item"@),
        frame.wire.rest["item"@] == JsonView::Object(item),
        crate::accumulator_laws::says(item, "arguments"@, text),
        crate::json::parsed_json(text) == Some(JsonView::Object(told)),
        call.item.arguments.len() > 0,
        crate::json::parsed_json(call.item.arguments) == Some(JsonView::Object(arrived)),
    ensures
        ({
            let out = crate::function_sse::translated(st, frame, Some(call), search).1;
            &&& crate::json::settled_fields(told) != crate::json::settled_fields(arrived)
                ==> out is Err
            &&& !crate::accumulator_laws::says(item, "call_id"@, state.call_id) ==> out is Err
            &&& !crate::accumulator_laws::says(item, "type"@, "function_call"@) ==> out is Err
            &&& !crate::accumulator_laws::says(item, "name"@, "tool_search"@) ==> out is Err
            &&& !crate::accumulator_laws::says(item, "status"@, "completed"@) ==> out is Err
            &&& !item.contains_key("id"@) ==> out is Err
        }),
{
}

/// A search is not accumulated where its arguments are longer than the limit, or where the event
/// does not say its place.
pub proof fn long_searches_are_refused(
    st: TranslatorView,
    frame: EventFrameView,
    call: Option<AccumulatedFunctionCallView>,
    item: Map<Seq<char>, JsonView>,
    text: Seq<char>,
)
    requires
        st.tool_search_enabled,
    ensures
        ({
            let admitted = crate::function_sse::admitted(st, frame, call).1;
            let p = frame.payload;
            let long = vstd::utf8::encode_utf8(text).len() > 262144;
            &&& p is FunctionCallArgsDone && p->FunctionCallArgsDone_name == "tool_search"@
                && p->FunctionCallArgsDone_arguments == text && (long || frame.wire.output_index
                != Some(p->FunctionCallArgsDone_output_index as u64)) ==> admitted is Err
            &&& p is OutputItemDone && p->OutputItemDone_item_type is FunctionCall
                && p->OutputItemDone_item == JsonView::Object(item)
                && crate::accumulator_laws::says(item, "name"@, "tool_search"@)
                && crate::accumulator_laws::says(item, "arguments"@, text) && (long
                || frame.wire.output_index != Some(p->OutputItemDone_output_index as u64))
                ==> admitted is Err
        }),
{
}

} // verus!
