//! How searches of a history load what they found: what each step accepts, and what it changes.
use vstd::prelude::*;

#[allow(unused_imports)]
use crate::definitions::{
    DefinitionRecordView, DefinitionsView, LoadedToolIdentityView, MemberLoadView,
    NamespaceMemberRecordView,
};
#[allow(unused_imports)]
use crate::error::ToolErrorView;
#[allow(unused_imports)]
use crate::items::{
    InputFunctionToolCallView, InputItemView, InputToolSearchCallView, ResponsesInputView,
    ToolSearchOutputMessageView,
};
#[allow(unused_imports)]
use crate::json::JsonView;
#[allow(unused_imports)]
use crate::search::HistoryView;
#[allow(unused_imports)]
use crate::tools::{
    AllowedToolView, CodexNamespaceMemberView, CodexNamespaceToolParamView, FunctionToolParamView,
    McpToolParamView, ResponsesToolView, ToolChoiceView,
};

verus! {

/// A search of the history is accepted exactly where it names itself and its call, neither was
/// used before, and no other search waits for its answer. It becomes the model's call of the
/// search function, under its own ids and with its own arguments, and waits for its answer.
pub proof fn searches_become_calls(call: InputToolSearchCallView, h: HistoryView)
    ensures
        ({
            let after = crate::search::search_call_step(call, h);
            &&& after is Ok <==> !crate::text::blank(call.id) && !crate::text::blank(call.call_id)
                && !h.item_ids.contains(call.id) && h.unresolved is None
                && !h.completed_call_ids.contains(call.call_id)
            &&& after is Err ==> after->Err_0 is Config
            &&& after is Ok ==> {
                let shown = after->Ok_0.items.last();
                &&& after->Ok_0.items == h.items.push(shown)
                &&& shown is FunctionCall
                &&& shown->FunctionCall_0.id == Some(call.id)
                &&& shown->FunctionCall_0.call_id == call.call_id
                &&& shown->FunctionCall_0.name == "tool_search"@
                &&& shown->FunctionCall_0.namespace is None
                &&& shown->FunctionCall_0.arguments == crate::json::json_text(
                    JsonView::Object(call.arguments),
                )
                &&& after->Ok_0.unresolved == Some(call.call_id)
                &&& after->Ok_0.item_ids.contains(call.id)
                &&& after->Ok_0.defs == h.defs
                &&& after->Ok_0.completed_call_ids == h.completed_call_ids
            }
        }),
{
}

/// An answer is accepted only where it is that of the search that waits, and then no search
/// waits any more. It becomes the output of the model's call, under its own call id.
pub proof fn answers_become_outputs(
    output: ToolSearchOutputMessageView,
    h: HistoryView,
    trusted: Set<LoadedToolIdentityView>,
    position: Option<usize>,
)
    ensures
        ({
            let after = crate::search::search_output_step(output, h, trusted, position);
            &&& after is Ok ==> h.unresolved == Some(output.call_id)
                && !h.completed_call_ids.contains(output.call_id) && !crate::text::blank(
                output.call_id,
            )
            &&& after is Ok ==> {
                let shown = after->Ok_0.items.last();
                &&& after->Ok_0.items == h.items.push(shown)
                &&& shown is FunctionCallOutput
                &&& shown->FunctionCallOutput_0.call_id == output.call_id
                &&& after->Ok_0.unresolved is None
                &&& after->Ok_0.completed_call_ids == h.completed_call_ids.insert(output.call_id)
                &&& after->Ok_0.item_ids == h.item_ids
            }
            &&& h.unresolved == Some(output.call_id) && !h.completed_call_ids.contains(
                output.call_id,
            ) && !crate::text::blank(output.call_id) && output.tools.len() == 0 ==> after is Ok
                && after->Ok_0.defs == h.defs
        }),
{
    if output.tools.len() == 0 {
        assert(crate::search::load_all(output.tools, h.defs, trusted, position, 0) == Ok::<
            DefinitionsView,
            ToolErrorView,
        >(h.defs));
        assert(crate::search::projected_all(output.tools, 0) is Some);
    }
}

/// Items of a history that are neither searches nor calls pass as they are; calls that may be
/// made pass too.
pub proof fn other_items_pass(
    item: InputItemView,
    h: HistoryView,
    trusted: Set<LoadedToolIdentityView>,
    position: usize,
)
    requires
        !(item is ToolSearchCall) && !(item is ToolSearchOutput),
    ensures
        ({
            let after = crate::search::history_step(item, h, trusted, position);
            &&& !(item is FunctionCall) ==> after == Ok::<HistoryView, ToolErrorView>(
                HistoryView { items: h.items.push(item), ..h },
            )
            &&& after is Ok ==> after->Ok_0.items == h.items.push(item) && after->Ok_0.unresolved
                == h.unresolved && after->Ok_0.item_ids == h.item_ids
                && after->Ok_0.completed_call_ids == h.completed_call_ids
        }),
{
}

/// A call in a history of a function that is withheld is refused. Any other unqualified call is
/// accepted, and where it was made first is remembered.
pub proof fn early_calls_are_refused(
    call: InputFunctionToolCallView,
    defs: DefinitionsView,
    position: usize,
)
    requires
        call.namespace is None,
    ensures
        ({
            let after = crate::search::history_call_step(call, defs, position);
            &&& after is Err <==> defs.withheld_function_names.contains(call.name)
            &&& after is Ok ==> {
                let now = after->Ok_0;
                &&& now == DefinitionsView {
                    unqualified_call_positions: now.unqualified_call_positions,
                    ..defs
                }
                &&& now.unqualified_call_positions.contains_key(call.name)
                &&& defs.unqualified_call_positions.contains_key(call.name)
                    ==> now.unqualified_call_positions == defs.unqualified_call_positions
                &&& !defs.unqualified_call_positions.contains_key(call.name)
                    ==> now.unqualified_call_positions[call.name] == position
                &&& forall|other: Seq<char>|
                    other != call.name ==> (#[trigger] now.unqualified_call_positions.contains_key(
                        other,
                    )) == defs.unqualified_call_positions.contains_key(other)
            }
        }),
{
}

/// Whether a record is the first of a member's name.
pub open spec fn is_first_member(
    members: Seq<NamespaceMemberRecordView>,
    name: Seq<char>,
    k: int,
) -> bool {
    &&& 0 <= k < members.len()
    &&& members[k].name == name
    &&& forall|j: int| 0 <= j < k ==> (#[trigger] members[j]).name != name
}

proof fn first_member_is_found(
    members: Seq<NamespaceMemberRecordView>,
    name: Seq<char>,
    k: int,
    n: int,
)
    requires
        is_first_member(members, name, k),
        0 <= n <= k,
    ensures
        crate::definitions::find_member(members, name, n) == Some(k),
    decreases k - n,
{
    if n < k {
        assert(members[n].name != name);
        first_member_is_found(members, name, k, n + 1);
    }
}

proof fn new_member_is_not_found(members: Seq<NamespaceMemberRecordView>, name: Seq<char>, n: int)
    requires
        0 <= n,
        forall|j: int| 0 <= j < members.len() ==> (#[trigger] members[j]).name != name,
    ensures
        crate::definitions::find_member(members, name, n) is None,
    decreases members.len() - n,
{
    if n < members.len() {
        assert(members[n].name != name);
        new_member_is_not_found(members, name, n + 1);
    }
}

proof fn first_record_is_found(
    definitions: Seq<DefinitionRecordView>,
    name: Seq<char>,
    at: int,
    n: int,
)
    requires
        crate::search_laws::is_first_of(definitions, name, at),
        0 <= n <= at,
    ensures
        crate::definitions::find_record(definitions, name, n) == Some(at),
    decreases at - n,
{
    if n < at {
        assert(crate::search_laws::record_name(definitions[n]) != name);
        first_record_is_found(definitions, name, at, n + 1);
    }
}

proof fn new_record_is_not_found(definitions: Seq<DefinitionRecordView>, name: Seq<char>, n: int)
    requires
        0 <= n,
        forall|j: int|
            0 <= j < definitions.len() ==> crate::search_laws::record_name(
                #[trigger] definitions[j],
            ) != name,
    ensures
        crate::definitions::find_record(definitions, name, n) is None,
    decreases definitions.len() - n,
{
    if n < definitions.len() {
        assert(crate::search_laws::record_name(definitions[n]) != name);
        new_record_is_not_found(definitions, name, n + 1);
    }
}

/// A call in a history of a member of a known namespace is accepted exactly where the member is
/// loaded, and changes nothing then.
pub proof fn early_member_calls_are_refused(
    call: InputFunctionToolCallView,
    defs: DefinitionsView,
    position: usize,
    at: int,
    k: int,
)
    requires
        call.namespace is Some,
        crate::search_laws::is_first_of(defs.definitions, call.namespace->0, at),
        defs.definitions[at].identity is Namespace,
        defs.definitions[at].members is Some,
        is_first_member(defs.definitions[at].members->0, call.name, k),
    ensures
        ({
            let after = crate::search::history_call_step(call, defs, position);
            &&& defs.definitions[at].members->0[k].loaded ==> after == Ok::<
                DefinitionsView,
                ToolErrorView,
            >(defs)
            &&& !defs.definitions[at].members->0[k].loaded ==> after is Err
        }),
{
    first_record_is_found(defs.definitions, call.namespace->0, at, 0);
    first_member_is_found(defs.definitions[at].members->0, call.name, k, 0);
}

/// A history in which a search has no answer at its end is refused, and a text is no history.
pub proof fn searches_must_be_answered(
    items: Seq<InputItemView>,
    text: Seq<char>,
    defs: DefinitionsView,
    trusted: Set<LoadedToolIdentityView>,
)
    ensures
        crate::search::prepared_history(ResponsesInputView::Text(text), defs, trusted) == Ok::<
            (DefinitionsView, ResponsesInputView),
            ToolErrorView,
        >((defs, ResponsesInputView::Text(text))),
        items.len() > 0 && items.last() is ToolSearchCall ==> crate::search::prepared_history(
            ResponsesInputView::Items(items),
            defs,
            trusted,
        ) is Err,
{
}

/// Whether fields have no keys but some.
pub open spec fn has_only(fields: Map<Seq<char>, JsonView>, keys: Set<Seq<char>>) -> bool {
    forall|key: Seq<char>| #[trigger] fields.contains_key(key) ==> keys.contains(key)
}

/// The model is shown what a search found one by one and in order: all of a function, but of a
/// namespace and of a server nothing but what it is called and its description.
pub proof fn found_tools_are_shown(tools: Seq<ResponsesToolView>, n: int)
    requires
        0 <= n <= tools.len(),
        forall|i: int|
            0 <= i < n ==> (#[trigger] tools[i]) is Function || tools[i] is Namespace || tools[i]
                is Mcp,
    ensures
        ({
            let shown = crate::search::projected_all(tools, n);
            &&& shown is Some
            &&& shown->0.len() == n
            &&& forall|i: int| 0 <= i < n ==> shows(#[trigger] shown->0[i], tools[i])
        }),
    decreases n,
{
    if n > 0 {
        found_tools_are_shown(tools, n - 1);
        crate::declaration_laws::declared_keys_differ();
        reveal_strlit("type");
        reveal_strlit("server_label");
        reveal_strlit("server_description");
        assert("type"@.len() == 4);
        assert("server_label"@.len() == 12);
        assert("server_description"@.len() == 18);
        crate::declaration_laws::functions_say_what_they_are(
            if tools[n - 1] is Function {
                tools[n - 1]->Function_0
            } else {
                arbitrary()
            },
        );
        let shown = crate::search::projected_all(tools, n)->0;
        assert(shows(shown[n - 1], tools[n - 1]));
        assert forall|i: int| 0 <= i < n implies shows(#[trigger] shown[i], tools[i]) by {
            if i < n - 1 {
                assert(shown[i] == crate::search::projected_all(tools, n - 1)->0[i]);
            }
        }
    }
}

/// Whether a value shows a found tool.
pub open spec fn shows(value: JsonView, tool: ResponsesToolView) -> bool {
    let fields = value->Object_0;
    &&& value is Object
    &&& match tool {
        ResponsesToolView::Function(f) => {
            &&& crate::accumulator_laws::says(fields, "type"@, "function"@)
            &&& crate::accumulator_laws::says(fields, "name"@, f.name)
            &&& f.description is Some ==> crate::accumulator_laws::says(
                fields,
                "description"@,
                f.description->0,
            )
            &&& f.parameters is Some ==> fields.contains_key("parameters"@)
                && fields["parameters"@] == f.parameters->0
        },
        ResponsesToolView::Namespace(n) => {
            &&& crate::accumulator_laws::says(fields, "type"@, "namespace"@)
            &&& crate::accumulator_laws::says(fields, "name"@, n.name)
            &&& n.description is Some ==> crate::accumulator_laws::says(
                fields,
                "description"@,
                n.description->0,
            )
            &&& has_only(fields, set!["type"@, "name"@, "description"@])
        },
        ResponsesToolView::Mcp(m) => {
            &&& crate::accumulator_laws::says(fields, "type"@, "mcp"@)
            &&& crate::accumulator_laws::says(fields, "server_label"@, m.server_label)
            &&& m.server_description is Some ==> crate::accumulator_laws::says(
                fields,
                "server_description"@,
                m.server_description->0,
            )
            &&& has_only(fields, set!["type"@, "server_label"@, "server_description"@])
        },
        _ => false,
    }
}

/// Whether a function may have a name while searches are used.
pub open spec fn may_be_named(name: Seq<char>) -> bool {
    !crate::text::blank(name) && name != "tool_search"@
}

/// Whether a name is that of no definition that is known.
pub open spec fn is_new(definitions: Seq<DefinitionRecordView>, name: Seq<char>) -> bool {
    forall|j: int|
        0 <= j < definitions.len() ==> crate::search_laws::record_name(#[trigger] definitions[j])
            != name
}

/// A function that a search found and that was not known is loaded, behind what is there,
/// unless the history called it before. A server is loaded too, and where is remembered.
pub proof fn new_tools_are_loaded(
    tool: ResponsesToolView,
    st: DefinitionsView,
    trusted: Set<LoadedToolIdentityView>,
    position: Option<usize>,
)
    requires
        tool is Function && may_be_named(tool->Function_0.name) && is_new(
            st.definitions,
            tool->Function_0.name,
        ) || tool is Mcp && !crate::text::blank(tool->Mcp_0.server_label) && is_new(
            st.definitions,
            tool->Mcp_0.server_label,
        ),
    ensures
        ({
            let after = crate::definitions::load_spec(tool, st, trusted, position);
            let now = after->Ok_0;
            &&& after is Err <==> tool is Function && st.unqualified_call_positions.contains_key(
                tool->Function_0.name,
            )
            &&& after is Ok ==> {
                &&& now.public_tools == st.public_tools.push(tool)
                &&& now.loaded_public_tools == st.loaded_public_tools.push(tool)
                &&& now.definitions.len() == st.definitions.len() + 1
                &&& now.definitions.drop_last() == st.definitions
                &&& now.definitions.last().loaded
                &&& now.definitions.last().public_index == st.public_tools.len()
                &&& now.withheld_function_names == st.withheld_function_names
                &&& tool is Function ==> now.definitions.last().identity
                    == LoadedToolIdentityView::Function(tool->Function_0.name)
                    && now.mcp_load_positions == st.mcp_load_positions
                &&& tool is Mcp ==> now.definitions.last().identity
                    == LoadedToolIdentityView::Mcp(tool->Mcp_0.server_label)
                &&& tool is Mcp && position is Some && !st.mcp_load_positions.contains_key(
                    tool->Mcp_0.server_label,
                ) ==> now.mcp_load_positions.contains_key(tool->Mcp_0.server_label)
                    && now.mcp_load_positions[tool->Mcp_0.server_label] == position->0
            }
        }),
{
    let name = if tool is Function {
        tool->Function_0.name
    } else {
        tool->Mcp_0.server_label
    };
    new_record_is_not_found(st.definitions, name, 0);
    if let Ok(now) = crate::definitions::load_spec(tool, st, trusted, position) {
        assert(now.definitions.drop_last() =~= st.definitions);
    }
}

/// A function that was declared deferred and that a search found is loaded: its schema is no
/// longer withheld, and those of all others stay as they are. It is refused where it is not
/// what was declared, or where the history called it before.
pub proof fn declared_functions_are_loaded(
    f: FunctionToolParamView,
    st: DefinitionsView,
    trusted: Set<LoadedToolIdentityView>,
    position: Option<usize>,
    at: int,
)
    requires
        may_be_named(f.name),
        crate::search_laws::is_first_of(st.definitions, f.name, at),
        st.definitions[at].identity == LoadedToolIdentityView::Function(f.name),
        st.definitions[at].public_index < st.public_tools.len(),
    ensures
        ({
            let tool = ResponsesToolView::Function(f);
            let after = crate::definitions::load_spec(tool, st, trusted, position);
            let now = after->Ok_0;
            let record = st.definitions[at];
            let same = record.canonical == crate::definitions::canonical_of(tool);
            &&& !same ==> after is Err
            &&& same && record.loaded ==> after == Ok::<DefinitionsView, ToolErrorView>(st)
            &&& same && !record.loaded && st.withheld_function_names.contains(f.name)
                && st.unqualified_call_positions.contains_key(f.name) ==> after is Err
            &&& same && !record.loaded && !st.unqualified_call_positions.contains_key(f.name) ==> {
                &&& after is Ok
                &&& now.definitions.len() == st.definitions.len()
                &&& now.definitions[at].loaded
                &&& now.definitions[at].identity == record.identity
                &&& forall|j: int|
                    0 <= j < st.definitions.len() && j != at ==> #[trigger] now.definitions[j]
                        == st.definitions[j]
                &&& !now.withheld_function_names.contains(f.name)
                &&& forall|other: Seq<char>|
                    other != f.name ==> (#[trigger] now.withheld_function_names.contains(other)
                        == st.withheld_function_names.contains(other))
                &&& now.loaded_public_tools == st.loaded_public_tools.push(
                    st.public_tools[record.public_index as int],
                )
                &&& now.public_tools == st.public_tools
            }
        }),
{
    first_record_is_found(st.definitions, f.name, at, 0);
}

/// A member that a search found is loaded: a declared one stays in its place and is no longer
/// withheld, a new one comes behind the others. A member that is not what was declared is
/// refused.
pub proof fn found_members_are_loaded(
    namespace: Seq<char>,
    f: FunctionToolParamView,
    load: MemberLoadView,
    k: int,
)
    requires
        is_first_member(load.records, f.name, k),
        load.records[k].public_member_index < load.tools.len(),
    ensures
        ({
            let member = CodexNamespaceMemberView::Function(f);
            let after = crate::definitions::load_member(namespace, member, load);
            let now = after->Ok_0;
            let flat = crate::names::member_name(namespace, f.name);
            let same = load.records[k].canonical == crate::definitions::canonical_member(f);
            &&& after is Ok <==> same
            &&& same && load.records[k].loaded ==> now == load
            &&& same ==> {
                &&& now.tools == load.tools
                &&& now.records.len() == load.records.len()
                &&& now.records[k].loaded
                &&& now.records[k].name == f.name
                &&& forall|j: int|
                    0 <= j < load.records.len() && j != k ==> #[trigger] now.records[j]
                        == load.records[j]
            }
            &&& same && !load.records[k].loaded ==> {
                &&& !now.withheld.contains(flat)
                &&& forall|other: Seq<char>|
                    other != flat ==> (#[trigger] now.withheld.contains(other)
                        == load.withheld.contains(other))
                &&& now.newly_loaded == load.newly_loaded.push(
                    load.tools[load.records[k].public_member_index as int],
                )
            }
        }),
{
    first_member_is_found(load.records, f.name, k, 0);
}

/// A member that was not declared is loaded behind the others; one of another kind is refused.
pub proof fn new_members_are_loaded(
    namespace: Seq<char>,
    f: FunctionToolParamView,
    load: MemberLoadView,
)
    requires
        forall|j: int| 0 <= j < load.records.len() ==> (#[trigger] load.records[j]).name != f.name,
    ensures
        ({
            let member = CodexNamespaceMemberView::Function(f);
            let after = crate::definitions::load_member(namespace, member, load);
            let now = after->Ok_0;
            &&& after is Ok
            &&& now.tools == load.tools.push(member)
            &&& now.newly_loaded == load.newly_loaded.push(member)
            &&& now.withheld == load.withheld
            &&& now.records.len() == load.records.len() + 1
            &&& now.records.drop_last() == load.records
            &&& now.records.last().loaded && now.records.last().name == f.name
            &&& now.records.last().public_member_index == load.tools.len()
        }),
        crate::definitions::load_member(namespace, CodexNamespaceMemberView::Unknown, load) is Err,
{
    new_member_is_not_found(load.records, f.name, 0);
    let now = crate::definitions::load_member(
        namespace,
        CodexNamespaceMemberView::Function(f),
        load,
    )->Ok_0;
    assert(now.records.drop_last() =~= load.records);
}

/// Everything that an answer holds is loaded, one after the other: loading two lists is loading
/// the first and then the second.
pub proof fn answers_are_loaded_one_by_one(
    a: Seq<ResponsesToolView>,
    b: Seq<ResponsesToolView>,
    st: DefinitionsView,
    trusted: Set<LoadedToolIdentityView>,
    position: Option<usize>,
    n: int,
)
    requires
        0 <= n <= b.len(),
    ensures
        ({
            let first = crate::search::load_all(a, st, trusted, position, a.len() as int);
            let both = crate::search::load_all(a + b, st, trusted, position, a.len() + n);
            &&& first is Err ==> both == first
            &&& first is Ok ==> both == crate::search::load_all(
                b,
                first->Ok_0,
                trusted,
                position,
                n,
            )
        }),
        b.len() > 0 ==> crate::search::load_all(b, st, trusted, position, 1)
            == crate::definitions::load_spec(b[0], st, trusted, position),
    decreases n,
{
    assert(crate::search::load_all(b, st, trusted, position, 0) == Ok::<
        DefinitionsView,
        ToolErrorView,
    >(st));
    if n > 0 {
        answers_are_loaded_one_by_one(a, b, st, trusted, position, n - 1);
        assert((a + b)[a.len() + n - 1] == b[n - 1]);
    } else {
        load_prefix(a, b, st, trusted, position, a.len() as int);
    }
}

proof fn load_prefix(
    a: Seq<ResponsesToolView>,
    b: Seq<ResponsesToolView>,
    st: DefinitionsView,
    trusted: Set<LoadedToolIdentityView>,
    position: Option<usize>,
    n: int,
)
    requires
        0 <= n <= a.len(),
    ensures
        crate::search::load_all(a + b, st, trusted, position, n) == crate::search::load_all(
            a,
            st,
            trusted,
            position,
            n,
        ),
    decreases n,
{
    if n > 0 {
        load_prefix(a, b, st, trusted, position, n - 1);
        assert((a + b)[n - 1] == a[n - 1]);
    }
}

/// What is stored of a server holds no credentials and nothing that the server listed, and all
/// else that was declared; of any other tool everything is stored.
pub proof fn stored_servers_hold_no_credentials(tool: ResponsesToolView)
    ensures
        ({
            let stored = crate::definitions::sanitized(tool);
            &&& !(tool is Mcp) ==> stored == tool
            &&& tool is Mcp ==> {
                let s = stored->Mcp_0;
                let m = tool->Mcp_0;
                &&& stored is Mcp
                &&& s.authorization is None
                &&& s.headers == Map::<Seq<char>, JsonView>::empty()
                &&& s.discovered_tools.len() == 0
                &&& s.server_label == m.server_label && s.server_description
                    == m.server_description && s.server_url == m.server_url
                &&& s.connector_id == m.connector_id && s.require_approval == m.require_approval
                &&& s.allowed_tools == m.allowed_tools && s.defer_loading == m.defer_loading
            }
        }),
{
}

/// What was stored and is not declared is loaded again, unless only what is declared counts.
pub proof fn stored_tools_are_restored(
    restored: ResponsesToolView,
    defs: DefinitionsView,
    only_declared: bool,
)
    requires
        restored is Function,
        may_be_named(restored->Function_0.name),
    ensures
        ({
            let found = crate::search::restored_definition(restored, defs, only_declared);
            &&& is_new(defs.definitions, restored->Function_0.name) && only_declared ==> found
                == Ok::<Option<ResponsesToolView>, ToolErrorView>(None)
            &&& is_new(defs.definitions, restored->Function_0.name) && !only_declared ==> found
                == Ok::<Option<ResponsesToolView>, ToolErrorView>(Some(restored))
            &&& found is Ok && found->Ok_0 is Some ==> found->Ok_0->0 == restored
        }),
{
    if is_new(defs.definitions, restored->Function_0.name) {
        new_record_is_not_found(defs.definitions, restored->Function_0.name, 0);
    }
}

/// A choice is refused as one of a withheld function where it names one, by its own name or by
/// that of a namespace's member, alone or among others; no other choice is.
pub proof fn choices_of_withheld_functions_are_seen(
    withheld: Set<Seq<char>>,
    name: Seq<char>,
    namespace: Seq<char>,
    mode: Seq<char>,
    tools: Seq<AllowedToolView>,
)
    ensures
        crate::search::targets_withheld(
            Some(ToolChoiceView::Function { namespace: None, name }),
            withheld,
        ) == withheld.contains(name),
        crate::search::targets_withheld(
            Some(ToolChoiceView::Function { namespace: Some(namespace), name }),
            withheld,
        ) == withheld.contains(crate::names::member_name(namespace, name)),
        !crate::search::targets_withheld(None, withheld),
        !crate::search::targets_withheld(Some(ToolChoiceView::Auto), withheld),
        !crate::search::targets_withheld(Some(ToolChoiceView::Required), withheld),
        crate::search::any_withheld(tools, withheld) <==> exists|i: int|
            0 <= i < tools.len() && (#[trigger] tools[i]).type_ == "function"@
                && withheld.contains(tools[i].name),
{
    if crate::search::any_withheld(tools, withheld) {
        let i = choose|i: int|
            0 <= i < tools.len() && crate::search::allows_withheld(#[trigger] tools[i], withheld);
        assert(tools[i].type_ == "function"@);
    }
    if exists|i: int|
        0 <= i < tools.len() && (#[trigger] tools[i]).type_ == "function"@ && withheld.contains(
            tools[i].name,
        ) {
        let i = choose|i: int|
            0 <= i < tools.len() && (#[trigger] tools[i]).type_ == "function"@
                && withheld.contains(tools[i].name);
        assert(crate::search::allows_withheld(tools[i], withheld));
    }
}

/// A finished raw call of the search function is shown as a search with its call id and its
/// arguments, and any other call is refused.
pub proof fn raw_searches_are_public(
    fields: Map<Seq<char>, JsonView>,
    id: Seq<char>,
    call_id: Seq<char>,
    text: Seq<char>,
    arguments: Map<Seq<char>, JsonView>,
)
    requires
        crate::accumulator_laws::says(fields, "id"@, id),
        crate::accumulator_laws::says(fields, "call_id"@, call_id),
        crate::accumulator_laws::says(fields, "arguments"@, text),
        crate::json::parsed_json(text) == Some(JsonView::Object(arguments)),
        !crate::text::blank(text),
    ensures
        ({
            let shown = crate::search::raw_output_item(fields);
            let finished = crate::accumulator_laws::says(fields, "type"@, "function_call"@)
                && crate::accumulator_laws::says(fields, "name"@, "tool_search"@)
                && crate::accumulator_laws::says(fields, "status"@, "completed"@);
            &&& finished && !fields.contains_key("namespace"@) && !crate::text::blank(id)
                && !crate::text::blank(call_id) ==> {
                &&& shown is Ok
                &&& shown->Ok_0.call_id == call_id
                &&& shown->Ok_0.arguments == arguments
                &&& shown->Ok_0.status is Completed
                &&& shown->Ok_0.execution is Client
            }
            &&& shown is Ok ==> finished && !crate::text::blank(id) && !crate::text::blank(call_id)
            &&& fields.contains_key("namespace"@) && fields["namespace"@] is Text ==> shown is Err
        }),
{
}

/// At first the members of a namespace are loaded where, and only where, they were not declared
/// deferred; each stands at its own place.
pub proof fn members_begin_as_declared(n: CodexNamespaceToolParamView, k: int, upto: int)
    requires
        0 <= k < upto <= n.tools.len(),
        crate::definitions::member_records(n, false, upto) is Ok,
    ensures
        ({
            let records = crate::definitions::member_records(n, false, upto)->Ok_0;
            &&& records.len() == upto
            &&& n.tools[k] is Function
            &&& records[k].name == n.tools[k]->Function_0.name
            &&& records[k].public_member_index == k
            &&& records[k].loaded <==> n.tools[k]->Function_0.defer_loading != Some(true)
        }),
    decreases upto,
{
    records_are_counted(n, upto);
    if k < upto - 1 {
        members_begin_as_declared(n, k, upto - 1);
    } else {
        records_are_counted(n, upto - 1);
    }
}

proof fn records_are_counted(n: CodexNamespaceToolParamView, upto: int)
    requires
        0 <= upto <= n.tools.len(),
        crate::definitions::member_records(n, false, upto) is Ok,
    ensures
        crate::definitions::member_records(n, false, upto)->Ok_0.len() == upto,
    decreases upto,
{
    if upto > 0 {
        records_are_counted(n, upto - 1);
    }
}

/// A namespace that a search found and that was not known is loaded whole: with all of its
/// members, behind what is there.
pub proof fn new_namespaces_are_loaded(
    n: CodexNamespaceToolParamView,
    st: DefinitionsView,
    trusted: Set<LoadedToolIdentityView>,
    position: Option<usize>,
)
    requires
        may_be_named(n.name),
        is_new(st.definitions, n.name),
    ensures
        ({
            let tool = ResponsesToolView::Namespace(n);
            let after = crate::definitions::load_spec(tool, st, trusted, position);
            let now = after->Ok_0;
            &&& after is Ok ==> {
                &&& now.public_tools == st.public_tools.push(tool)
                &&& now.loaded_public_tools == st.loaded_public_tools.push(tool)
                &&& now.definitions.len() == st.definitions.len() + 1
                &&& now.definitions.last().identity == LoadedToolIdentityView::Namespace(n.name)
                &&& now.definitions.last().members is Some
                &&& now.withheld_function_names == st.withheld_function_names
            }
            &&& n.tools.len() == 0 ==> after is Err
        }),
{
    new_record_is_not_found(st.definitions, n.name, 0);
}

/// A known namespace keeps its place when a search finds members of it; what was found new of it
/// is told as loaded, and where nothing new was found nothing is.
pub proof fn known_namespaces_keep_their_place(
    returned: CodexNamespaceToolParamView,
    at: int,
    st: DefinitionsView,
)
    requires
        0 <= at < st.definitions.len(),
        crate::definitions::load_namespace(returned, at, st) is Ok,
    ensures
        ({
            let now = crate::definitions::load_namespace(returned, at, st)->Ok_0;
            let index = st.definitions[at].public_index as int;
            &&& now.public_tools.len() == st.public_tools.len()
            &&& now.definitions.len() == st.definitions.len()
            &&& now.definitions[at].identity == st.definitions[at].identity
            &&& now.definitions[at].public_index == st.definitions[at].public_index
            &&& forall|j: int|
                0 <= j < st.definitions.len() && j != at ==> #[trigger] now.definitions[j]
                    == st.definitions[j]
            &&& forall|j: int|
                0 <= j < st.public_tools.len() && j != index ==> #[trigger] now.public_tools[j]
                    == st.public_tools[j]
            &&& now.public_tools[index] is Namespace && st.public_tools[index] is Namespace
            &&& now.public_tools[index]->Namespace_0.name
                == st.public_tools[index]->Namespace_0.name
            &&& st.loaded_public_tools.len() <= now.loaded_public_tools.len()
                <= st.loaded_public_tools.len() + 1
            &&& now.mcp_load_positions == st.mcp_load_positions
            &&& now.unqualified_call_positions == st.unqualified_call_positions
        }),
{
}

/// A server that was declared and that a search found is loaded in its place. Where it was
/// declared deferred, the position at which it was first loaded is kept; of any other server no
/// position is.
pub proof fn declared_servers_are_loaded(
    m: McpToolParamView,
    st: DefinitionsView,
    trusted: Set<LoadedToolIdentityView>,
    position: Option<usize>,
    at: int,
)
    requires
        !crate::text::blank(m.server_label),
        crate::search_laws::is_first_of(st.definitions, m.server_label, at),
        st.definitions[at].identity == LoadedToolIdentityView::Mcp(m.server_label),
        st.definitions[at].public_index < st.public_tools.len(),
        st.definitions[at].canonical == crate::definitions::canonical_of(
            ResponsesToolView::Mcp(m),
        ),
        !st.withheld_function_names.contains(m.server_label),
    ensures
        ({
            let tool = ResponsesToolView::Mcp(m);
            let after = crate::definitions::load_spec(tool, st, trusted, position);
            let now = after->Ok_0;
            let label = m.server_label;
            let record = st.definitions[at];
            let public = st.public_tools[record.public_index as int];
            let deferred = public is Mcp && public->Mcp_0.defer_loading == Some(true);
            &&& after is Ok
            &&& record.loaded ==> now == st
            &&& !record.loaded ==> {
                &&& now.definitions.len() == st.definitions.len()
                &&& now.definitions[at].loaded
                &&& now.public_tools == st.public_tools
                &&& now.loaded_public_tools == st.loaded_public_tools.push(public)
                &&& forall|name: Seq<char>|
                    now.withheld_function_names.contains(name)
                        == #[trigger] st.withheld_function_names.contains(name)
                &&& deferred && position is Some && !st.mcp_load_positions.contains_key(label)
                    ==> now.mcp_load_positions == st.mcp_load_positions.insert(label, position->0)
                &&& !deferred || position is None || st.mcp_load_positions.contains_key(label)
                    ==> now.mcp_load_positions == st.mcp_load_positions
            }
        }),
{
    first_record_is_found(st.definitions, m.server_label, at, 0);
}

/// A server that is known by another definition is refused, unless it is one that a search may
/// name and what was found is the public part of what was declared: then nothing changes.
pub proof fn other_servers_are_refused(
    m: McpToolParamView,
    st: DefinitionsView,
    trusted: Set<LoadedToolIdentityView>,
    position: Option<usize>,
    at: int,
)
    requires
        !crate::text::blank(m.server_label),
        crate::search_laws::is_first_of(st.definitions, m.server_label, at),
        st.definitions[at].canonical != crate::definitions::canonical_of(
            ResponsesToolView::Mcp(m),
        ),
    ensures
        ({
            let after = crate::definitions::load_spec(
                ResponsesToolView::Mcp(m),
                st,
                trusted,
                position,
            );
            &&& after is Ok ==> after->Ok_0 == st && trusted.contains(
                LoadedToolIdentityView::Mcp(m.server_label),
            ) && st.definitions[at].identity == LoadedToolIdentityView::Mcp(m.server_label)
            &&& !trusted.contains(LoadedToolIdentityView::Mcp(m.server_label)) ==> after is Err
        }),
{
    first_record_is_found(st.definitions, m.server_label, at, 0);
}

/// A namespace that a search found is refused where the history called one of its members that
/// was not known: under its namespace, or under its flat name alone.
pub proof fn called_members_are_refused(
    n: CodexNamespaceToolParamView,
    st: DefinitionsView,
    trusted: Set<LoadedToolIdentityView>,
    position: Option<usize>,
    k: int,
    at: int,
)
    requires
        0 <= k < n.tools.len(),
        n.tools[k] is Function,
        st.prior_unknown_namespace_calls.contains((n.name, n.tools[k]->Function_0.name))
            || st.unqualified_call_positions.contains_key(
            crate::names::member_name(n.name, n.tools[k]->Function_0.name),
        ),
    ensures
        may_be_named(n.name) && is_new(st.definitions, n.name) ==> crate::definitions::load_spec(
            ResponsesToolView::Namespace(n),
            st,
            trusted,
            position,
        ) is Err,
        0 <= at < st.definitions.len() && st.definitions[at].members is Some && (forall|j: int|
            0 <= j < st.definitions[at].members->0.len() ==> (
            #[trigger] st.definitions[at].members->0[j]).name != n.tools[k]->Function_0.name)
            ==> crate::definitions::load_namespace(n, at, st) is Err,
{
    let name = n.tools[k]->Function_0.name;
    if may_be_named(n.name) && is_new(st.definitions, n.name) {
        new_record_is_not_found(st.definitions, n.name, 0);
        assert(crate::definitions::resolves_prior_call(
            n.name,
            n.tools[k],
            Seq::empty(),
            st.prior_unknown_namespace_calls,
            st.unqualified_call_positions,
        ));
    }
    if 0 <= at < st.definitions.len() && st.definitions[at].members is Some {
        let members = st.definitions[at].members->0;
        if forall|j: int| 0 <= j < members.len() ==> (#[trigger] members[j]).name != name {
            member_is_not_found(members, name, 0);
            assert(crate::definitions::resolves_prior_call(
                n.name,
                n.tools[k],
                members,
                st.prior_unknown_namespace_calls,
                st.unqualified_call_positions,
            ));
        }
    }
}

proof fn member_is_not_found(
    members: Seq<crate::definitions::NamespaceMemberRecordView>,
    name: Seq<char>,
    n: int,
)
    requires
        0 <= n <= members.len(),
        forall|j: int| 0 <= j < members.len() ==> (#[trigger] members[j]).name != name,
    ensures
        crate::definitions::find_member(members, name, n) is None,
    decreases members.len() - n,
{
    if n < members.len() {
        member_is_not_found(members, name, n + 1);
    }
}

} // verus!
