//! Which calls of a history the client still owes an output for. The gateway's own calls
//! are always answered within their turn.
use vstd::prelude::*;

use crate::data::Data;
use crate::items::InputItem;
#[allow(unused_imports)]
use crate::items::InputItemView;
use crate::text::same_text;

verus! {

/// A call that the client still owes an output for.
#[derive(Debug, Clone, PartialEq)]
pub struct PendingCall {
    pub call_id: String,
}

/// The view of a [`PendingCall`].
#[verifier::ext_equal]
pub struct PendingCallView {
    pub call_id: Seq<char>,
}

impl View for PendingCall {
    type V = PendingCallView;

    open spec fn view(&self) -> PendingCallView {
        PendingCallView {
            call_id: self.call_id@,
        }
    }
}

impl Data for PendingCall {
    fn copied(&self) -> (out: PendingCall) {
        PendingCall {
            call_id: self.call_id.copied(),
        }
    }

    fn same(&self, other: &PendingCall) -> (yes: bool) {
        self.call_id.same(&other.call_id)
    }
}

/// The call that an item is.
pub open spec fn call_of(item: InputItemView) -> Option<Seq<char>> {
    match item {
        InputItemView::FunctionCall(call) => Some(call.call_id),
        InputItemView::CustomToolCall(call) => Some(call.call_id),
        _ => None,
    }
}

/// The call that an item gives the output of.
pub open spec fn answer_of(item: InputItemView) -> Option<Seq<char>> {
    match item {
        InputItemView::FunctionCallOutput(output) => Some(output.call_id),
        InputItemView::CustomToolCallOutput(output) => Some(output.call_id),
        _ => None,
    }
}

/// The calls without those of an id.
pub open spec fn without_call(
    calls: Seq<PendingCallView>,
    call_id: Seq<char>,
) -> Seq<PendingCallView>
    decreases calls.len(),
{
    if calls.len() == 0 {
        Seq::empty()
    } else if calls.last().call_id == call_id {
        without_call(calls.drop_last(), call_id)
    } else {
        without_call(calls.drop_last(), call_id).push(calls.last())
    }
}

/// The calls among the first `n` items that none of these items answers later on, in the
/// order in which they were made.
pub open spec fn pending(items: Seq<InputItemView>, n: int) -> Seq<PendingCallView>
    decreases n,
{
    if n <= 0 {
        Seq::empty()
    } else {
        let before = pending(items, n - 1);
        match (call_of(items[n - 1]), answer_of(items[n - 1])) {
            (Some(call_id), _) => before.push(PendingCallView { call_id }),
            (None, Some(call_id)) => without_call(before, call_id),
            (None, None) => before,
        }
    }
}

fn remove_call(calls: &Vec<PendingCall>, call_id: &str) -> (out: Vec<PendingCall>)
    ensures
        crate::data::views(out@) == without_call(crate::data::views(calls@), call_id@),
{
    let ghost all = crate::data::views(calls@);
    let mut out: Vec<PendingCall> = Vec::new();
    let mut i: usize = 0;
    proof {
        assert(crate::data::views(out@) =~= without_call(all.take(0), call_id@));
    }
    while i < calls.len()
        invariant
            i <= calls@.len(),
            all == crate::data::views(calls@),
            crate::data::views(out@) == without_call(all.take(i as int), call_id@),
        decreases calls@.len() - i,
    {
        proof {
            assert(all[i as int] == calls@[i as int]@);
            assert(all.take(i + 1).drop_last() =~= all.take(i as int));
        }
        if !same_text(calls[i].call_id.as_str(), call_id) {
            let call = calls[i].copied();
            proof {
                crate::data::views_push(out@, call);
            }
            out.push(call);
        }
        i = i + 1;
    }
    proof {
        assert(all.take(calls@.len() as int) =~= all);
    }
    out
}

/// The calls that no later item answers, in the order in which they were made.
pub fn pending_calls(items: &Vec<InputItem>) -> (calls: Vec<PendingCall>)
    ensures
        crate::data::views(calls@) == pending(crate::data::views(items@), items@.len() as int),
{
    let ghost all = crate::data::views(items@);
    let mut calls: Vec<PendingCall> = Vec::new();
    let mut i: usize = 0;
    proof {
        assert(crate::data::views(calls@) =~= Seq::empty());
    }
    while i < items.len()
        invariant
            i <= items@.len(),
            all == crate::data::views(items@),
            crate::data::views(calls@) == pending(all, i as int),
        decreases items@.len() - i,
    {
        proof {
            assert(all[i as int] == items@[i as int]@);
        }
        let made = match &items[i] {
            InputItem::FunctionCall(call) => Some(&call.call_id),
            InputItem::CustomToolCall(call) => Some(&call.call_id),
            _ => None,
        };
        if let Some(call_id) = made {
            let call = PendingCall { call_id: call_id.clone() };
            proof {
                crate::data::views_push(calls@, call);
            }
            calls.push(call);
        }
        let answered = match &items[i] {
            InputItem::FunctionCallOutput(output) => Some(&output.call_id),
            InputItem::CustomToolCallOutput(output) => Some(&output.call_id),
            _ => None,
        };
        if let Some(call_id) = answered {
            calls = remove_call(&calls, call_id.as_str());
        }
        i = i + 1;
    }
    calls
}

/// Whether the item at `i` is a call that no item from there to `n` answers.
pub open spec fn unanswered(items: Seq<InputItemView>, i: int, n: int) -> bool {
    &&& call_of(items[i]) is Some
    &&& forall|j: int| i < j < n ==> answer_of(#[trigger] items[j]) != call_of(items[i])
}

/// A call is pending exactly where some call with its id is answered by no later item.
pub proof fn pending_calls_are_unanswered(items: Seq<InputItemView>, call_id: Seq<char>)
    ensures
        pending(items, items.len() as int).contains(PendingCallView { call_id }) <==> exists|i: int|
            0 <= i < items.len() && call_of(items[i]) == Some(call_id) && #[trigger] unanswered(
                items,
                i,
                items.len() as int,
            ),
{
    pending_so_far(items, call_id, items.len() as int);
}

proof fn pending_so_far(items: Seq<InputItemView>, call_id: Seq<char>, n: int)
    requires
        0 <= n <= items.len(),
    ensures
        pending(items, n).contains(PendingCallView { call_id }) <==> exists|i: int|
            0 <= i < n && call_of(items[i]) == Some(call_id) && #[trigger] unanswered(items, i, n),
    decreases n,
{
    if n > 0 {
        pending_so_far(items, call_id, n - 1);
        let last = items[n - 1];
        let call = PendingCallView { call_id };
        let before = pending(items, n - 1);
        let after = pending(items, n);
        if let Some(made) = call_of(last) {
            let new = PendingCallView { call_id: made };
            assert(after == before.push(new));
            assert(after.contains(call) <==> before.contains(call) || new == call) by {
                if before.contains(call) {
                    let j = choose|j: int| 0 <= j < before.len() && before[j] == call;
                    assert(after[j] == call);
                }
                if new == call {
                    assert(after[before.len() as int] == call);
                }
            }
            if made == call_id {
                assert(unanswered(items, n - 1, n));
            }
        } else if let Some(answered) = answer_of(last) {
            without_call_keeps(before, answered, call);
        }
        assert forall|i: int| 0 <= i < n - 1 && #[trigger] unanswered(items, i, n - 1) && answer_of(
            last,
        ) != call_of(items[i]) implies unanswered(items, i, n) by {}
        assert forall|i: int| 0 <= i < n - 1 && #[trigger] unanswered(items, i, n) implies unanswered(
            items,
            i,
            n - 1,
        ) && answer_of(last) != call_of(items[i]) by {}
    }
}

proof fn without_call_keeps(calls: Seq<PendingCallView>, call_id: Seq<char>, call: PendingCallView)
    ensures
        without_call(calls, call_id).contains(call) <==> (calls.contains(call) && call.call_id
            != call_id),
    decreases calls.len(),
{
    if calls.len() > 0 {
        let rest = calls.drop_last();
        without_call_keeps(rest, call_id, call);
        let kept = without_call(rest, call_id);
        assert(calls =~= rest.push(calls.last()));
        assert(calls.contains(call) <==> rest.contains(call) || calls.last() == call) by {
            if rest.contains(call) {
                let j = choose|j: int| 0 <= j < rest.len() && rest[j] == call;
                assert(calls[j] == call);
            }
        }
        if calls.last().call_id != call_id {
            let after = kept.push(calls.last());
            assert(after.contains(call) <==> kept.contains(call) || calls.last() == call) by {
                if kept.contains(call) {
                    let j = choose|j: int| 0 <= j < kept.len() && kept[j] == call;
                    assert(after[j] == call);
                }
                if calls.last() == call {
                    assert(after[kept.len() as int] == call);
                }
            }
        }
    }
}

} // verus!
