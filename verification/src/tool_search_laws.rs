//! What a client's own searches loaded, and how the model's calls are given back to the client.
use vstd::prelude::*;

#[allow(unused_imports)]
use crate::items::{FunctionToolCallView, MessageStatus};
#[allow(unused_imports)]
use crate::json::JsonView;
#[allow(unused_imports)]
use crate::tool_search::{
    ClientSearchCallView, ClientSearchOutputView, RestorableItemView, SearchHistoryItemView,
    SearchHistoryView,
};
#[allow(unused_imports)]
use crate::tools::{FunctionToolView, ToolSearchExecution, ToolSearchStatus};

verus! {

/// Whether an item is a search that the client has run under an id.
pub open spec fn is_search(item: SearchHistoryItemView, id: Seq<char>) -> bool {
    &&& item is Call
    &&& item->Call_0.call_id == Some(id)
    &&& item->Call_0.execution == Some(ToolSearchExecution::Client)
    &&& item->Call_0.status == Some(ToolSearchStatus::Completed)
    &&& id.len() > 0
}

/// Whether an item is the finished answer of a client to the search of an id.
pub open spec fn is_answer(item: SearchHistoryItemView, id: Seq<char>) -> bool {
    &&& item is Output
    &&& item->Output_0.call_id == Some(id)
    &&& item->Output_0.execution == Some(ToolSearchExecution::Client)
    &&& item->Output_0.status == Some(ToolSearchStatus::Completed)
    &&& id.len() > 0
}

proof fn searches_are_noted(items: Seq<SearchHistoryItemView>, n: int, a: int, id: Seq<char>)
    requires
        0 <= a < n <= items.len(),
        is_search(items[a], id),
    ensures
        crate::tool_search::searches(items, n).calls.contains(id),
    decreases n,
{
    if a < n - 1 {
        searches_are_noted(items, n - 1, a, id);
    }
}

proof fn answered_have_answers(items: Seq<SearchHistoryItemView>, n: int, id: Seq<char>)
    requires
        0 <= n <= items.len(),
        crate::tool_search::searches(items, n).answered.contains(id),
    ensures
        exists|b: int| 0 <= b < n && is_answer(#[trigger] items[b], id),
    decreases n,
{
    if n > 0 {
        let before = crate::tool_search::searches(items, n - 1);
        if before.answered.contains(id) {
            answered_have_answers(items, n - 1, id);
            let b = choose|b: int| 0 <= b < n - 1 && is_answer(#[trigger] items[b], id);
            assert(is_answer(items[b], id));
        } else {
            assert(is_answer(items[n - 1], id));
        }
    }
}

proof fn outputs_stay(items: Seq<SearchHistoryItemView>, m: int, n: int, k: int)
    requires
        0 <= m <= n <= items.len(),
        0 <= k < crate::tool_search::searches(items, m).outputs.len(),
    ensures
        k < crate::tool_search::searches(items, n).outputs.len(),
        crate::tool_search::searches(items, n).outputs[k] == crate::tool_search::searches(
            items,
            m,
        ).outputs[k],
    decreases n,
{
    if m < n {
        outputs_stay(items, m, n - 1, k);
    }
}

/// The first finished answer to a finished search before it counts, and every tool in it was
/// found.
pub proof fn first_answers_count(
    items: Seq<SearchHistoryItemView>,
    a: int,
    b: int,
    id: Seq<char>,
    t: int,
)
    requires
        0 <= a < b < items.len(),
        is_search(items[a], id),
        is_answer(items[b], id),
        forall|c: int| 0 <= c < b ==> !is_answer(#[trigger] items[c], id),
        0 <= t < items[b]->Output_0.tools.len(),
    ensures
        crate::tool_search::valid_outputs(SearchHistoryView::Items(items)).contains(
            items[b]->Output_0,
        ),
        crate::tool_search::tools_found(SearchHistoryView::Items(items)).contains(
            items[b]->Output_0.tools[t],
        ),
{
    searches_are_noted(items, b, a, id);
    if crate::tool_search::searches(items, b).answered.contains(id) {
        answered_have_answers(items, b, id);
    }
    let after = crate::tool_search::searches(items, b + 1);
    let k = after.outputs.len() - 1;
    assert(after.outputs[k] == items[b]->Output_0);
    let n = items.len() as int;
    outputs_stay(items, b + 1, n, k);
    let outputs = crate::tool_search::searches(items, n).outputs;
    assert(outputs[k] == items[b]->Output_0);
    tools_are_found(outputs, outputs.len() as int, k, t);
}

proof fn tools_are_found(outputs: Seq<ClientSearchOutputView>, n: int, k: int, t: int)
    requires
        0 <= k < n <= outputs.len(),
        0 <= t < outputs[k].tools.len(),
    ensures
        crate::tool_search::found_tools(outputs, n).contains(outputs[k].tools[t]),
    decreases n,
{
    let before = crate::tool_search::found_tools(outputs, n - 1);
    let more = outputs[n - 1].tools;
    if k < n - 1 {
        tools_are_found(outputs, n - 1, k, t);
        let i = choose|i: int| 0 <= i < before.len() && before[i] == outputs[k].tools[t];
        assert((before + more)[i] == outputs[k].tools[t]);
    } else {
        assert((before + more)[before.len() + t] == outputs[k].tools[t]);
    }
}

/// A text instead of a history loaded nothing.
pub proof fn texts_load_nothing(text: Seq<char>)
    ensures
        crate::tool_search::tools_found(SearchHistoryView::Text(text)).len() == 0,
        crate::tool_search::loaded_functions(SearchHistoryView::Text(text)).functions.len() == 0,
{
}

/// Whether a definition is one of a kind and has a name.
pub open spec fn is_named(
    tool: Map<Seq<char>, JsonView>,
    kind: Seq<char>,
    name: Seq<char>,
) -> bool {
    crate::accumulator_laws::says(tool, "type"@, kind) && crate::accumulator_laws::says(
        tool,
        "name"@,
        name,
    ) && name.len() > 0
}

/// A function that was found is a function with the name, the description and the parameters
/// that its definition says; a definition of another kind or without a name is none.
pub proof fn found_functions_are_as_defined(tool: Map<Seq<char>, JsonView>, name: Seq<char>)
    ensures
        ({
            let found = crate::tool_search::found_function(JsonView::Object(tool));
            &&& is_named(tool, "function"@, name) ==> {
                &&& found is Some
                &&& found->0.name == name
                &&& found->0.type_ == "function"@
                &&& forall|text: Seq<char>|
                    #![trigger crate::accumulator_laws::says(tool, "description"@, text)]
                    crate::accumulator_laws::says(tool, "description"@, text)
                        ==> found->0.description == Some(text)
                &&& tool.contains_key("parameters"@) && !(tool["parameters"@] is Null)
                    ==> found->0.parameters == Some(tool["parameters"@])
                &&& !tool.contains_key("parameters"@) ==> found->0.parameters is None
                &&& tool.contains_key("strict"@) && tool["strict"@] is Bool ==> found->0.strict
                    == Some(tool["strict"@]->Bool_0)
            }
            &&& !tool.contains_key("name"@) ==> found is None
            &&& found is Some ==> is_named(tool, "function"@, found->0.name)
        }),
{
}

/// Every function that was found beside the namespaces is loaded under its name.
pub proof fn found_functions_are_loaded(
    history: SearchHistoryView,
    i: int,
    tool: Map<Seq<char>, JsonView>,
    name: Seq<char>,
)
    requires
        0 <= i < crate::tool_search::tools_found(history).len(),
        crate::tool_search::tools_found(history)[i] == JsonView::Object(tool),
        is_named(tool, "function"@, name),
    ensures
        crate::tool_search::has_function(
            crate::tool_search::loaded_functions(history).functions,
            name,
        ),
        crate::tool_search::loaded_names(history).contains(name),
{
    crate::tool_search::loaded_functions_have_the_loaded_names(history);
    let tools = crate::tool_search::tools_found(history);
    function_is_named(tools, tools.len() as int, i, name);
}

proof fn function_is_named(tools: Seq<JsonView>, n: int, i: int, name: Seq<char>)
    requires
        0 <= i < n <= tools.len(),
        crate::tool_search::named(tools[i], "function"@) == Some(name),
    ensures
        crate::tool_search::function_names(tools, n).contains(name),
    decreases n,
{
    if i < n - 1 {
        function_is_named(tools, n - 1, i, name);
    }
}

/// A call of the search function, in no namespace, with a call id and with arguments that are
/// JSON is given back as the client's search with that id, those arguments and its status; any
/// other call stays a call, and everything else stays as it is.
pub proof fn searches_are_given_back(
    call: FunctionToolCallView,
    arguments: JsonView,
    other: JsonView,
)
    ensures
        ({
            let item = RestorableItemView::FunctionCall(call);
            let given = crate::tool_search::restored_search(item);
            &&& call.name == "tool_search"@ && call.namespace is None && call.call_id.len() > 0
                && crate::json::parsed_json(call.arguments) == Some(arguments) ==> {
                &&& given is SearchCall
                &&& given->SearchCall_0.call_id == Some(call.call_id)
                &&& given->SearchCall_0.arguments == arguments
                &&& given->SearchCall_0.execution == Some(ToolSearchExecution::Client)
                &&& call.status is Completed ==> given->SearchCall_0.status == Some(
                    ToolSearchStatus::Completed,
                )
                &&& call.status is InProgress ==> given->SearchCall_0.status == Some(
                    ToolSearchStatus::InProgress,
                )
                &&& call.status is Incomplete ==> given->SearchCall_0.status == Some(
                    ToolSearchStatus::Incomplete,
                )
            }
            &&& call.name != "tool_search"@ || call.namespace is Some || call.call_id.len() == 0
                || crate::json::parsed_json(call.arguments) is None ==> given == item
        }),
        crate::tool_search::restored_search(RestorableItemView::Other(other))
            == RestorableItemView::Other(other),
{
}

/// A call of a loaded member is given back with its namespace and nothing else changed; a call
/// that is in a namespace, or of a function that is no member, stays as it is.
pub proof fn members_are_given_back(
    namespaces: Map<Seq<char>, Seq<char>>,
    call: FunctionToolCallView,
)
    ensures
        ({
            let item = RestorableItemView::FunctionCall(call);
            let given = crate::tool_search::restored_member(namespaces, item);
            &&& given is FunctionCall
            &&& given->FunctionCall_0 == (FunctionToolCallView {
                namespace: given->FunctionCall_0.namespace,
                ..call
            })
            &&& call.namespace is Some ==> given == item
            &&& call.namespace is None && namespaces.contains_key(call.name)
                ==> given->FunctionCall_0.namespace == Some(namespaces[call.name])
            &&& !namespaces.contains_key(call.name) ==> given == item
        }),
{
}

proof fn call_keys_differ()
    ensures
        "type"@ != "execution"@,
        "type"@ != "arguments"@,
        "type"@ != "id"@,
        "type"@ != "name"@,
        "type"@ != "namespace"@,
        "type"@ != "call_id"@,
        "type"@ != "status"@,
        "execution"@ != "arguments"@,
        "execution"@ != "id"@,
        "execution"@ != "name"@,
        "execution"@ != "namespace"@,
        "execution"@ != "call_id"@,
        "arguments"@ != "id"@,
        "arguments"@ != "name"@,
        "arguments"@ != "namespace"@,
        "arguments"@ != "call_id"@,
        "call_id"@ != "id"@,
        "call_id"@ != "name"@,
        "call_id"@ != "namespace"@,
{
    reveal_strlit("type");
    reveal_strlit("execution");
    reveal_strlit("arguments");
    reveal_strlit("id");
    reveal_strlit("name");
    reveal_strlit("namespace");
    reveal_strlit("call_id");
    reveal_strlit("status");
    assert("type"@.len() == 4 && "type"@[0] == 't');
    assert("execution"@.len() == 9 && "execution"@[0] == 'e');
    assert("arguments"@.len() == 9 && "arguments"@[0] == 'a');
    assert("id"@.len() == 2);
    assert("name"@.len() == 4 && "name"@[0] == 'n');
    assert("namespace"@.len() == 9 && "namespace"@[0] == 'n');
    assert("call_id"@.len() == 7);
    assert("status"@.len() == 6);
}

/// A call of the search function in an event is given back as a search that the client runs: it
/// keeps its call id, its status and every other field, loses its own id and name, and has the
/// arguments that its text stands for.
pub proof fn searches_in_events_are_given_back(
    fields: Map<Seq<char>, JsonView>,
    call_id: Seq<char>,
    text: Seq<char>,
    arguments: JsonView,
)
    requires
        crate::accumulator_laws::says(fields, "type"@, "function_call"@),
        crate::accumulator_laws::says(fields, "name"@, "tool_search"@),
        crate::accumulator_laws::says(fields, "call_id"@, call_id),
        !fields.contains_key("namespace"@),
        call_id.len() > 0,
    ensures
        ({
            let given = crate::tool_search::restored_call_fields(None, fields);
            &&& crate::accumulator_laws::says(given, "type"@, "tool_search_call"@)
            &&& crate::accumulator_laws::says(given, "execution"@, "client"@)
            &&& crate::accumulator_laws::says(given, "call_id"@, call_id)
            &&& !given.contains_key("id"@) && !given.contains_key("name"@)
            &&& crate::accumulator_laws::says(fields, "arguments"@, text) && text.len() > 0
                && crate::json::parsed_json(text) == Some(arguments) ==> given.contains_key(
                "arguments"@,
            ) && given["arguments"@] == arguments
            &&& !fields.contains_key("arguments"@) ==> given.contains_key("arguments"@)
                && given["arguments"@] == JsonView::Object(Map::empty())
            &&& forall|key: Seq<char>|
                #![trigger given[key]]
                fields.contains_key(key) && key != "type"@ && key != "execution"@ && key
                    != "arguments"@ && key != "id"@ && key != "name"@ && key != "namespace"@
                    ==> given.contains_key(key) && given[key] == fields[key]
        }),
{
    call_keys_differ();
}

/// A call of a loaded member in an event is given back with its namespace, and a call of any
/// other function as it is.
pub proof fn members_in_events_are_given_back(
    namespaces: Map<Seq<char>, Seq<char>>,
    fields: Map<Seq<char>, JsonView>,
    name: Seq<char>,
)
    requires
        crate::accumulator_laws::says(fields, "type"@, "function_call"@),
        crate::accumulator_laws::says(fields, "name"@, name),
        !fields.contains_key("namespace"@),
    ensures
        ({
            let given = crate::tool_search::restored_call_fields(Some(namespaces), fields);
            &&& namespaces.contains_key(name) ==> crate::accumulator_laws::says(
                given,
                "namespace"@,
                namespaces[name],
            )
            &&& !namespaces.contains_key(name) ==> given == fields
            &&& forall|key: Seq<char>|
                #![trigger given[key]]
                fields.contains_key(key) && key != "namespace"@ ==> given.contains_key(key)
                    && given[key] == fields[key]
        }),
{
}

/// The calls of an event are given back wherever they stand: the event's item, every item of its
/// output, and every item of the output of its response.
pub proof fn calls_are_given_back_everywhere(
    namespaces: Option<Map<Seq<char>, Seq<char>>>,
    call: Map<Seq<char>, JsonView>,
    response: Map<Seq<char>, JsonView>,
    items: Seq<JsonView>,
    i: int,
)
    requires
        0 <= i < items.len(),
        items[i] == JsonView::Object(call),
        response.contains_key("output"@),
        response["output"@] == JsonView::Array(items),
        !response.contains_key("item"@) && !response.contains_key("response"@)
            && !response.contains_key("payload"@),
        !crate::accumulator_laws::says(response, "type"@, "function_call"@),
    ensures
        ({
            let given = JsonView::Object(
                crate::tool_search::restored_call_fields(namespaces, call),
            );
            let item = crate::tool_search::restored_value(
                namespaces,
                JsonView::Object(
                    Map::<Seq<char>, JsonView>::empty().insert("item"@, JsonView::Object(call)),
                ),
                false,
            );
            let after = crate::tool_search::restored_value(
                namespaces,
                JsonView::Object(response),
                true,
            );
            let nested = crate::tool_search::restored_value(
                namespaces,
                JsonView::Object(
                    Map::<Seq<char>, JsonView>::empty().insert(
                        "response"@,
                        JsonView::Object(response),
                    ),
                ),
                false,
            );
            &&& item is Object && item->Object_0.contains_key("item"@)
                && item->Object_0["item"@] == given
            &&& after is Object && after->Object_0.contains_key("output"@)
                && after->Object_0["output"@] is Array
            &&& after->Object_0["output"@]->Array_0.len() == items.len()
            &&& after->Object_0["output"@]->Array_0[i] == given
            &&& nested is Object && nested->Object_0.contains_key("response"@)
                && nested->Object_0["response"@] == after
        }),
{
    event_keys_differ();
    reveal_with_fuel(crate::tool_search::restored_value, 3);
    let one = Map::<Seq<char>, JsonView>::empty().insert("item"@, JsonView::Object(call));
    assert(!one.contains_key("response"@) && !one.contains_key("payload"@) && !one.contains_key(
        "output"@,
    ));
    let event = Map::<Seq<char>, JsonView>::empty().insert(
        "response"@,
        JsonView::Object(response),
    );
    assert(!event.contains_key("item"@) && !event.contains_key("payload"@) && !event.contains_key(
        "output"@,
    ));
    let restored = items.map_values(|v: JsonView| crate::tool_search::restored_call(namespaces, v));
    assert(restored[i] == crate::tool_search::restored_call(namespaces, items[i]));
}

proof fn event_keys_differ()
    ensures
        "item"@ != "response"@,
        "item"@ != "payload"@,
        "item"@ != "output"@,
        "response"@ != "payload"@,
        "response"@ != "output"@,
        "payload"@ != "output"@,
{
    reveal_strlit("item");
    reveal_strlit("response");
    reveal_strlit("payload");
    reveal_strlit("output");
    assert("item"@.len() == 4);
    assert("response"@.len() == 8);
    assert("payload"@.len() == 7);
    assert("output"@.len() == 6);
}

/// A function that one namespace alone has, and that stands nowhere beside the namespaces, is
/// that namespace's member.
pub proof fn single_members_have_their_namespace(
    tools: Seq<JsonView>,
    i: int,
    namespace: Seq<char>,
    name: Seq<char>,
)
    requires
        0 <= i < tools.len(),
        crate::tool_search::claims_name(tools[i], namespace, name),
        forall|j: int, other: Seq<char>|
            0 <= j < tools.len() && #[trigger] crate::tool_search::claims_name(
                tools[j],
                other,
                name,
            ) ==> other == namespace,
        forall|j: int|
            0 <= j < tools.len() ==> crate::tool_search::named(#[trigger] tools[j], "function"@)
                != Some(name),
    ensures
        crate::tool_search::namespaces_of(tools).contains_key(name),
        crate::tool_search::namespaces_of(tools)[name] == namespace,
{
    let n = tools.len() as int;
    claims_stay_single(tools, n, i, namespace, name);
    names_are_of_functions(tools, n, name);
}

/// The functions of a namespace are those that its definition lists.
pub proof fn members_are_read(
    tool: Map<Seq<char>, JsonView>,
    namespace: Seq<char>,
    members: Seq<JsonView>,
    k: int,
    member: Map<Seq<char>, JsonView>,
    name: Seq<char>,
)
    requires
        is_named(tool, "namespace"@, namespace),
        tool.contains_key("tools"@),
        tool["tools"@] == JsonView::Array(members),
        0 <= k < members.len(),
        members[k] == JsonView::Object(member),
        is_named(member, "function"@, name),
    ensures
        crate::tool_search::claims_name(JsonView::Object(tool), namespace, name),
{
    assert(crate::tool_search::named(members[k], "function"@) == Some(name));
}

proof fn names_are_of_functions(tools: Seq<JsonView>, n: int, name: Seq<char>)
    requires
        0 <= n <= tools.len(),
        forall|j: int|
            0 <= j < n ==> crate::tool_search::named(#[trigger] tools[j], "function"@) != Some(
                name,
            ),
    ensures
        !crate::tool_search::function_names(tools, n).contains(name),
    decreases n,
{
    if n > 0 {
        names_are_of_functions(tools, n - 1, name);
        let last = tools[n - 1];
    }
}

proof fn member_claims(
    claims: Map<Seq<char>, crate::tool_search::NamespaceClaimView>,
    namespace: Seq<char>,
    members: Seq<JsonView>,
    n: int,
    name: Seq<char>,
)
    requires
        0 <= n <= members.len(),
    ensures
        ({
            let after = crate::tool_search::with_claims(claims, namespace, members, n);
            &&& !crate::tool_search::has_member(members, n, name) ==> after.contains_key(name)
                == claims.contains_key(name) && (claims.contains_key(name) ==> after[name]
                == claims[name])
            &&& crate::tool_search::has_member(members, n, name) && (!claims.contains_key(name)
                || claims[name].namespace == Some(namespace)) ==> after.contains_key(name)
                && after[name].namespace == Some(namespace)
        }),
    decreases n,
{
    if n > 0 {
        member_claims(claims, namespace, members, n - 1, name);
        if crate::tool_search::named(members[n - 1], "function"@) == Some(name) {
            assert(crate::tool_search::has_member(members, n, name));
        } else if crate::tool_search::has_member(members, n, name) {
            let k = choose|k: int|
                0 <= k < n && crate::tool_search::named(#[trigger] members[k], "function"@)
                    == Some(name);
            assert(k < n - 1);
            assert(crate::tool_search::has_member(members, n - 1, name));
        } else if crate::tool_search::has_member(members, n - 1, name) {
            let k = choose|k: int|
                0 <= k < n - 1 && crate::tool_search::named(#[trigger] members[k], "function"@)
                    == Some(name);
            assert(crate::tool_search::has_member(members, n, name));
        }
    }
}

proof fn claims_stay_single(
    tools: Seq<JsonView>,
    n: int,
    i: int,
    namespace: Seq<char>,
    name: Seq<char>,
)
    requires
        0 <= n <= tools.len(),
        forall|j: int, other: Seq<char>|
            0 <= j < tools.len() && #[trigger] crate::tool_search::claims_name(
                tools[j],
                other,
                name,
            ) ==> other == namespace,
    ensures
        ({
            let claims = crate::tool_search::claims_of(tools, n);
            &&& claims.contains_key(name) ==> claims[name].namespace == Some(namespace)
            &&& 0 <= i < n && crate::tool_search::claims_name(tools[i], namespace, name)
                ==> claims.contains_key(name)
        }),
    decreases n,
{
    if n > 0 {
        claims_stay_single(tools, n - 1, i, namespace, name);
        if let Some(last) = crate::tool_search::named(tools[n - 1], "namespace"@) {
            let members = crate::tool_search::members_given(tools[n - 1]);
            member_claims(
                crate::tool_search::claims_of(tools, n - 1),
                last,
                members,
                members.len() as int,
                name,
            );
            if crate::tool_search::has_member(members, members.len() as int, name) {
                assert(crate::tool_search::claims_name(tools[n - 1], last, name));
            }
        }
    }
}

/// Whether a search says who runs it, its call id and how far it is.
pub open spec fn is_told_of(fields: Map<Seq<char>, JsonView>, id: Seq<char>) -> bool {
    crate::accumulator_laws::says(fields, "execution"@, "client"@) && crate::accumulator_laws::says(
        fields,
        "call_id"@,
        id,
    ) && crate::accumulator_laws::says(fields, "status"@, "completed"@)
}

/// A search of a client and its answer are read from a history with what they say; an item of
/// another kind is kept as it is.
pub proof fn histories_are_read(
    fields: Map<Seq<char>, JsonView>,
    id: Seq<char>,
    tools: Seq<JsonView>,
    other: JsonView,
)
    ensures
        ({
            let item = crate::tool_search::history_item_of(JsonView::Object(fields));
            &&& crate::accumulator_laws::says(fields, "type"@, "tool_search_call"@) && is_told_of(
                fields,
                id,
            ) && fields.contains_key("arguments"@) ==> item is Some && item->0 is Call
                && item->0->Call_0.call_id == Some(id) && item->0->Call_0.execution == Some(
                ToolSearchExecution::Client,
            ) && item->0->Call_0.status == Some(ToolSearchStatus::Completed)
                && item->0->Call_0.arguments == fields["arguments"@]
            &&& crate::accumulator_laws::says(fields, "type"@, "tool_search_output"@)
                && is_told_of(fields, id) && fields.contains_key("tools"@) && fields["tools"@]
                == JsonView::Array(tools) ==> item is Some && item->0 is Output
                && item->0->Output_0.call_id == Some(id) && item->0->Output_0.execution == Some(
                ToolSearchExecution::Client,
            ) && item->0->Output_0.status == Some(ToolSearchStatus::Completed)
                && item->0->Output_0.tools == tools
            &&& !fields.contains_key("type"@) ==> item == Some(
                SearchHistoryItemView::Other(JsonView::Object(fields)),
            )
        }),
        !(other is Object) ==> crate::tool_search::history_item_of(other) == Some(
            SearchHistoryItemView::Other(other),
        ),
{
    reveal_strlit("tool_search_call");
    reveal_strlit("tool_search_output");
    reveal_strlit("client");
    reveal_strlit("server");
    reveal_strlit("completed");
    reveal_strlit("in_progress");
    reveal_strlit("incomplete");
    assert("tool_search_call"@.len() == 16);
    assert("tool_search_output"@.len() == 18);
    assert("client"@.len() == 6 && "client"@[0] == 'c');
    assert("server"@.len() == 6 && "server"@[0] == 's');
    assert("completed"@.len() == 9);
    assert("in_progress"@.len() == 11);
    assert("incomplete"@.len() == 10);
}

/// A search of a client is written with its arguments and its answer with its tools, each under
/// its call id; an item of another kind as it is.
pub proof fn histories_are_written(
    call: ClientSearchCallView,
    output: ClientSearchOutputView,
    other: JsonView,
)
    ensures
        ({
            let json = crate::tool_search::history_item_json(SearchHistoryItemView::Call(call));
            &&& json is Object
            &&& crate::accumulator_laws::says(json->Object_0, "type"@, "tool_search_call"@)
            &&& json->Object_0.contains_key("arguments"@) && json->Object_0["arguments"@]
                == call.arguments
            &&& call.call_id is Some ==> crate::accumulator_laws::says(
                json->Object_0,
                "call_id"@,
                call.call_id->0,
            )
        }),
        ({
            let json = crate::tool_search::history_item_json(
                SearchHistoryItemView::Output(output),
            );
            &&& json is Object
            &&& crate::accumulator_laws::says(json->Object_0, "type"@, "tool_search_output"@)
            &&& json->Object_0.contains_key("tools"@) && json->Object_0["tools"@]
                == JsonView::Array(output.tools)
            &&& output.call_id is Some ==> crate::accumulator_laws::says(
                json->Object_0,
                "call_id"@,
                output.call_id->0,
            )
        }),
        crate::tool_search::history_item_json(SearchHistoryItemView::Other(other)) == other,
{
    call_keys_differ();
    reveal_strlit("tools");
    reveal_strlit("status");
    reveal_strlit("type");
    reveal_strlit("call_id");
    reveal_strlit("arguments");
    assert("tools"@.len() == 5);
    assert("status"@.len() == 6);
    assert("type"@.len() == 4);
    assert("call_id"@.len() == 7);
    assert("arguments"@.len() == 9);
}

/// Whether a function is one that the tools tell: on its own, or as a member of its namespace.
pub open spec fn is_told(
    tools: Seq<JsonView>,
    namespaces: Map<Seq<char>, Seq<char>>,
    n: int,
    f: FunctionToolView,
) -> bool {
    exists|i: int|
        0 <= i < n && (crate::tool_search::found_function(#[trigger] tools[i]) == Some(f)
            || is_told_member(tools[i], namespaces, f))
}

/// Whether a function is a member that a namespace tells and that is the namespace's own.
pub open spec fn is_told_member(
    tool: JsonView,
    namespaces: Map<Seq<char>, Seq<char>>,
    f: FunctionToolView,
) -> bool {
    namespaces.contains_key(f.name) && crate::tool_search::named(tool, "namespace"@) == Some(
        namespaces[f.name],
    ) && exists|k: int|
        0 <= k < crate::tool_search::members_given(tool).len()
            && crate::tool_search::found_function(
            #[trigger] crate::tool_search::members_given(tool)[k],
        ) == Some(f)
}

/// Nothing is loaded but what was found, as it was found, and of a namespace only its own
/// members.
pub proof fn loaded_functions_were_found(
    tools: Seq<JsonView>,
    namespaces: Map<Seq<char>, Seq<char>>,
    n: int,
    f: FunctionToolView,
)
    requires
        0 <= n <= tools.len(),
        crate::tool_search::promoted(tools, namespaces, n).functions.contains(f),
    ensures
        is_told(tools, namespaces, n, f),
    decreases n,
{
    if n > 0 {
        let before = crate::tool_search::promoted(tools, namespaces, n - 1);
        let tool = tools[n - 1];
        if before.functions.contains(f) {
            loaded_functions_were_found(tools, namespaces, n - 1, f);
            let i = choose|i: int|
                0 <= i < n - 1 && (crate::tool_search::found_function(#[trigger] tools[i]) == Some(
                    f,
                ) || is_told_member(tools[i], namespaces, f));
            assert(0 <= i < n && (crate::tool_search::found_function(tools[i]) == Some(f)
                || is_told_member(tools[i], namespaces, f)));
        } else if crate::tool_search::found_function(tool) is Some {
            let function = crate::tool_search::found_function(tool)->0;
            promoting_adds_one(before, function, f);
        } else {
            let namespace = crate::tool_search::named(tool, "namespace"@)->0;
            let members = crate::tool_search::members_given(tool);
            new_members_were_given(before, namespaces, namespace, members, members.len() as int, f);
        }
    }
}

proof fn promoting_adds_one(
    before: crate::tool_search::Promoted,
    function: FunctionToolView,
    f: FunctionToolView,
)
    requires
        crate::tool_search::promote(before, function).functions.contains(f),
        !before.functions.contains(f),
    ensures
        f == function,
{
    let after = crate::tool_search::promote(before, function).functions;
    let i = choose|i: int| 0 <= i < after.len() && after[i] == f;
    if i < before.functions.len() {
        assert(before.functions[i] == f);
    }
}

proof fn new_members_were_given(
    before: crate::tool_search::Promoted,
    namespaces: Map<Seq<char>, Seq<char>>,
    namespace: Seq<char>,
    members: Seq<JsonView>,
    n: int,
    f: FunctionToolView,
)
    requires
        0 <= n <= members.len(),
        crate::tool_search::promote_members(
            before,
            namespaces,
            namespace,
            members,
            n,
        ).functions.contains(f),
        !before.functions.contains(f),
    ensures
        namespaces.contains_key(f.name),
        namespaces[f.name] == namespace,
        exists|k: int|
            0 <= k < members.len() && crate::tool_search::found_function(#[trigger] members[k])
                == Some(f),
    decreases n,
{
    if n > 0 {
        let so_far = crate::tool_search::promote_members(
            before,
            namespaces,
            namespace,
            members,
            n - 1,
        );
        if so_far.functions.contains(f) {
            new_members_were_given(before, namespaces, namespace, members, n - 1, f);
        } else {
            let found = crate::tool_search::found_function(members[n - 1]);
            if found is Some {
                promoting_adds_one(so_far, found->0, f);
            }
        }
    }
}

proof fn counted_answers_are_noted(items: Seq<SearchHistoryItemView>, n: int, k: int)
    requires
        0 <= n <= items.len(),
        0 <= k < crate::tool_search::searches(items, n).outputs.len(),
    ensures
        ({
            let output = crate::tool_search::searches(items, n).outputs[k];
            &&& output.call_id is Some
            &&& crate::tool_search::searches(items, n).answered.contains(output.call_id->0)
        }),
    decreases n,
{
    if n > 0 {
        let before = crate::tool_search::searches(items, n - 1);
        if k < before.outputs.len() {
            counted_answers_are_noted(items, n - 1, k);
        }
    }
}

/// A search is answered once: no two answers that count are to the same search.
pub proof fn searches_are_answered_once(
    items: Seq<SearchHistoryItemView>,
    n: int,
    i: int,
    j: int,
)
    requires
        0 <= n <= items.len(),
        0 <= i < j < crate::tool_search::searches(items, n).outputs.len(),
    ensures
        crate::tool_search::searches(items, n).outputs[i].call_id != crate::tool_search::searches(
            items,
            n,
        ).outputs[j].call_id,
    decreases n,
{
    if n > 0 {
        let before = crate::tool_search::searches(items, n - 1);
        if j < before.outputs.len() {
            searches_are_answered_once(items, n - 1, i, j);
        } else {
            counted_answers_are_noted(items, n - 1, i);
        }
    }
}

} // verus!
