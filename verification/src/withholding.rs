//! What tool search keeps from the model: no function is shown while its definition is not
//! loaded, and the history is shown as it was.
use vstd::prelude::*;

#[allow(unused_imports)]
use crate::definitions::{
    DefinitionRecordView, DefinitionsView, LoadedToolIdentityView, MemberLoadView,
    NamespaceMemberRecordView,
};
#[allow(unused_imports)]
use crate::error::ToolErrorView;
#[allow(unused_imports)]
use crate::items::{
    FunctionToolResultMessageView, InputFunctionToolCallView, InputItemView, MessageStatus,
    ResponsesInputView,
};
#[allow(unused_imports)]
use crate::json::JsonView;
#[allow(unused_imports)]
use crate::payload::RequestPayloadView;
#[allow(unused_imports)]
use crate::search::{CatalogEntryView, HistoryView};
#[allow(unused_imports)]
use crate::tools::{
    CodexNamespaceMemberView, CodexNamespaceToolParamView, FunctionToolView, ResponsesToolView,
};

verus! {

/// The record of the declaration at a place, where that is the record which the place's
/// identity is found by.
pub open spec fn own_record(defs: DefinitionsView, p: int) -> Option<DefinitionRecordView> {
    match crate::definitions::identity_of(defs.public_tools[p]) {
        Ok(Some(identity)) => match crate::definitions::find_record(
            defs.definitions,
            crate::definitions::identity_name(identity),
            0,
        ) {
            Some(at) if defs.definitions[at].identity == identity
                && defs.definitions[at].public_index == p => Some(defs.definitions[at]),
            _ => None,
        },
        _ => None,
    }
}

/// Whether the declaration at a place is a deferred function of a name that is not loaded.
pub open spec fn withholds_function(defs: DefinitionsView, name: Seq<char>, p: int) -> bool {
    &&& 0 <= p < defs.public_tools.len()
    &&& defs.public_tools[p] matches ResponsesToolView::Function(f)
    &&& f.name == name
    &&& f.defer_loading == Some(true)
    &&& own_record(defs, p) matches Some(record)
    &&& !record.loaded
}

/// Whether the declaration at a place is a namespace whose member at another place has a
/// flat name and is not loaded.
pub open spec fn withholds_member(defs: DefinitionsView, name: Seq<char>, p: int, q: int) -> bool {
    &&& 0 <= p < defs.public_tools.len()
    &&& defs.public_tools[p] matches ResponsesToolView::Namespace(n)
    &&& 0 <= q < n.tools.len()
    &&& n.tools[q] matches CodexNamespaceMemberView::Function(f)
    &&& crate::names::member_name(n.name, f.name) == name
    &&& own_record(defs, p) matches Some(record)
    &&& record.members matches Some(members)
    &&& crate::definitions::find_member(members, f.name, 0) matches Some(k)
    &&& !members[k].loaded
}

/// Whether some declaration of a name is not loaded.
pub open spec fn unloaded(defs: DefinitionsView, name: Seq<char>) -> bool {
    (exists|p: int| withholds_function(defs, name, p)) || (exists|p: int, q: int|
        withholds_member(defs, name, p, q))
}

/// Whether every withheld name is that of a declaration which is not loaded, and every
/// record is that of the declaration at its place.
pub open spec fn consistent(defs: DefinitionsView) -> bool {
    &&& forall|name: Seq<char>| #[trigger]
        defs.withheld_function_names.contains(name) ==> unloaded(defs, name)
    &&& forall|i: int| 0 <= i < defs.definitions.len() ==> placed(defs, #[trigger]
        defs.definitions[i])
}

/// Whether a record is that of the declaration at its place.
pub open spec fn placed(defs: DefinitionsView, record: DefinitionRecordView) -> bool {
    &&& record.public_index < defs.public_tools.len()
    &&& crate::definitions::identity_of(defs.public_tools[record.public_index as int]) == Ok::<
        _,
        ToolErrorView,
    >(Some(record.identity))
}

proof fn find_record_is_first(definitions: Seq<DefinitionRecordView>, name: Seq<char>, i: int)
    requires
        0 <= i,
    ensures
        crate::definitions::find_record(definitions, name, i) matches Some(at) ==> i <= at
            < definitions.len() && crate::definitions::identity_name(definitions[at].identity)
            == name,
    decreases definitions.len() - i,
{
    if i < definitions.len() {
        find_record_is_first(definitions, name, i + 1);
    }
}

/// A name is found at the same place where identities stay, and where more are added
/// behind.
proof fn find_record_stays(
    before: Seq<DefinitionRecordView>,
    after: Seq<DefinitionRecordView>,
    name: Seq<char>,
    i: int,
)
    requires
        0 <= i,
        before.len() <= after.len(),
        forall|j: int|
            0 <= j < before.len() ==> (#[trigger] before[j]).identity == after[j].identity,
        crate::definitions::find_record(before, name, i) is Some,
    ensures
        crate::definitions::find_record(after, name, i) == crate::definitions::find_record(
            before,
            name,
            i,
        ),
    decreases before.len() - i,
{
    assert(i < before.len());
    assert(before[i].identity == after[i].identity);
    if crate::definitions::identity_name(before[i].identity) != name {
        find_record_stays(before, after, name, i + 1);
    }
}

proof fn find_member_is_first(members: Seq<NamespaceMemberRecordView>, name: Seq<char>, i: int)
    requires
        0 <= i,
    ensures
        crate::definitions::find_member(members, name, i) matches Some(k) ==> i <= k < members.len()
            && members[k].name == name,
    decreases members.len() - i,
{
    if i < members.len() {
        find_member_is_first(members, name, i + 1);
    }
}

proof fn find_member_stays(
    before: Seq<NamespaceMemberRecordView>,
    after: Seq<NamespaceMemberRecordView>,
    name: Seq<char>,
    i: int,
)
    requires
        0 <= i,
        before.len() <= after.len(),
        forall|j: int| 0 <= j < before.len() ==> (#[trigger] before[j]).name == after[j].name,
        crate::definitions::find_member(before, name, i) is Some,
    ensures
        crate::definitions::find_member(after, name, i) == crate::definitions::find_member(
            before,
            name,
            i,
        ),
    decreases before.len() - i,
{
    assert(i < before.len());
    assert(before[i].name == after[i].name);
    if before[i].name != name {
        find_member_stays(before, after, name, i + 1);
    }
}

/// Whether a load keeps what was there: the members in front, and that a member is not
/// loaded while its name is withheld.
spec fn keeps(namespace: Seq<char>, before: MemberLoadView, after: MemberLoadView) -> bool {
    &&& before.tools.len() <= after.tools.len()
    &&& forall|q: int| 0 <= q < before.tools.len() ==> before.tools[q] == #[trigger] after.tools[q]
    &&& forall|name: Seq<char>| #[trigger]
        after.withheld.contains(name) ==> before.withheld.contains(name)
    &&& forall|member: Seq<char>| #[trigger]
        unloaded_member(before.records, member) && after.withheld.contains(
            crate::names::member_name(namespace, member),
        ) ==> unloaded_member(after.records, member)
}

/// Whether a member is known and not loaded.
spec fn unloaded_member(records: Seq<NamespaceMemberRecordView>, member: Seq<char>) -> bool {
    crate::definitions::find_member(records, member, 0) matches Some(k) && !records[k].loaded
}

proof fn load_members_keeps(returned: CodexNamespaceToolParamView, load: MemberLoadView, n: int)
    requires
        crate::definitions::load_members(returned, load, n) is Ok,
    ensures
        keeps(returned.name, load, crate::definitions::load_members(returned, load, n)->Ok_0),
    decreases n,
{
    if n > 0 {
        load_members_keeps(returned, load, n - 1);
        let before = crate::definitions::load_members(returned, load, n - 1)->Ok_0;
        let after = crate::definitions::load_members(returned, load, n)->Ok_0;
        assert(crate::definitions::load_member(returned.name, returned.tools[n - 1], before) == Ok::<
            _,
            ToolErrorView,
        >(after));
        if let CodexNamespaceMemberView::Function(f) = returned.tools[n - 1] {
            find_member_is_first(before.records, f.name, 0);
        }
        assert(before.records.len() <= after.records.len());
        assert forall|member: Seq<char>| #[trigger]
            unloaded_member(before.records, member) && after.withheld.contains(
                crate::names::member_name(returned.name, member),
            ) implies unloaded_member(after.records, member) by {
            find_member_is_first(before.records, member, 0);
            find_member_stays(before.records, after.records, member, 0);
        }
    }
}

/// What loading a namespace's members leaves as it was.
proof fn load_namespace_keeps(returned: CodexNamespaceToolParamView, at: int, st: DefinitionsView)
    requires
        consistent(st),
        crate::definitions::find_record(st.definitions, returned.name, 0) == Some(at),
        st.definitions[at].identity == LoadedToolIdentityView::Namespace(returned.name),
        crate::definitions::load_namespace(returned, at, st) is Ok,
    ensures
        consistent(crate::definitions::load_namespace(returned, at, st)->Ok_0),
{
    let after = crate::definitions::load_namespace(returned, at, st)->Ok_0;
    find_record_is_first(st.definitions, returned.name, 0);
    let record = st.definitions[at];
    assert(placed(st, record));
    let p0 = record.public_index as int;
    let public = st.public_tools[p0]->Namespace_0;
    assert(public.name == returned.name);
    let members = record.members->0;
    let load = MemberLoadView {
        tools: public.tools,
        records: members,
        withheld: st.withheld_function_names,
        newly_loaded: Seq::empty(),
    };
    load_members_keeps(returned, load, returned.tools.len() as int);
    let done = crate::definitions::load_members(returned, load, returned.tools.len() as int)->Ok_0;
    assert forall|i: int| 0 <= i < after.definitions.len() implies placed(after, #[trigger]
        after.definitions[i]) by {
        assert(placed(st, st.definitions[i]));
    }
    assert forall|p: int|
        0 <= p < st.public_tools.len() && own_record(st, p) is Some implies #[trigger] own_record(
        after,
        p,
    ) == (if p == p0 {
        Some(after.definitions[at])
    } else {
        own_record(st, p)
    }) by {
        let identity = crate::definitions::identity_of(st.public_tools[p])->Ok_0->0;
        let name = crate::definitions::identity_name(identity);
        find_record_is_first(st.definitions, name, 0);
        find_record_stays(st.definitions, after.definitions, name, 0);
        let j = crate::definitions::find_record(st.definitions, name, 0)->0;
        if p == p0 {
            assert(name == returned.name);
        } else {
            assert(j != at);
        }
    }
    assert forall|name: Seq<char>| #[trigger]
        after.withheld_function_names.contains(name) implies unloaded(after, name) by {
        assert(st.withheld_function_names.contains(name));
        if exists|p: int| withholds_function(st, name, p) {
            let p = choose|p: int| withholds_function(st, name, p);
            assert(own_record(after, p) == own_record(st, p));
            assert(withholds_function(after, name, p));
        } else {
            let (p, q) = choose|p: int, q: int| withholds_member(st, name, p, q);
            let n = st.public_tools[p]->Namespace_0;
            if p == p0 {
                assert(own_record(after, p) == Some(after.definitions[at]));
                let f = n.tools[q]->Function_0;
                assert(own_record(st, p) == Some(record)) by {
                    find_record_is_first(st.definitions, returned.name, 0);
                }
                assert(unloaded_member(load.records, f.name));
                assert(unloaded_member(done.records, f.name));
                assert(done.tools[q] == n.tools[q]);
                assert(withholds_member(after, name, p, q));
            } else {
                assert(own_record(after, p) == own_record(st, p));
                assert(withholds_member(after, name, p, q));
            }
        }
    }
}

/// Loading a definition keeps the state consistent.
proof fn load_keeps(
    tool: ResponsesToolView,
    st: DefinitionsView,
    trusted: Set<LoadedToolIdentityView>,
    position: Option<usize>,
)
    requires
        consistent(st),
        crate::definitions::load_spec(tool, st, trusted, position) is Ok,
    ensures
        consistent(crate::definitions::load_spec(tool, st, trusted, position)->Ok_0),
        crate::definitions::load_spec(tool, st, trusted, position)->Ok_0.public_tools.len()
            >= st.public_tools.len(),
{
    let after = crate::definitions::load_spec(tool, st, trusted, position)->Ok_0;
    let identity = crate::definitions::identity_of(tool)->Ok_0->0;
    let name = crate::definitions::identity_name(identity);
    match crate::definitions::find_record(st.definitions, name, 0) {
        Some(at) => {
            find_record_is_first(st.definitions, name, 0);
            let record = st.definitions[at];
            assert(placed(st, record));
            if after == st {
            } else if tool is Namespace {
                load_namespace_keeps(tool->Namespace_0, at, st);
            } else {
                assert(after.public_tools == st.public_tools);
                assert(after.definitions == st.definitions.update(
                    at,
                    DefinitionRecordView { loaded: true, ..record },
                ));
                assert forall|i: int| 0 <= i < after.definitions.len() implies placed(
                    after,
                    #[trigger] after.definitions[i],
                ) by {
                    assert(placed(st, st.definitions[i]));
                }
                assert forall|w: Seq<char>| #[trigger]
                    after.withheld_function_names.contains(w) implies unloaded(after, w) by {
                    assert(st.withheld_function_names.contains(w));
                    assert(w != name);
                    if exists|p: int| withholds_function(st, w, p) {
                        let p = choose|p: int| withholds_function(st, w, p);
                        other_record_stays(st, after, at, p);
                        assert(withholds_function(after, w, p));
                    } else {
                        let (p, q) = choose|p: int, q: int| withholds_member(st, w, p, q);
                        other_record_stays(st, after, at, p);
                        assert(withholds_member(after, w, p, q));
                    }
                }
            }
        },
        None => {
            assert(after.public_tools == st.public_tools.push(tool));
            let record = crate::definitions::record_of(
                tool,
                identity,
                st.public_tools.len(),
                true,
            )->Ok_0;
            assert(after.definitions == st.definitions.push(record));
            assert forall|i: int| 0 <= i < after.definitions.len() implies placed(
                after,
                #[trigger] after.definitions[i],
            ) by {
                if i < st.definitions.len() {
                    assert(placed(st, st.definitions[i]));
                    assert(after.definitions[i] == st.definitions[i]);
                }
            }
            assert forall|w: Seq<char>| #[trigger]
                after.withheld_function_names.contains(w) implies unloaded(after, w) by {
                assert(st.withheld_function_names.contains(w));
                if exists|p: int| withholds_function(st, w, p) {
                    let p = choose|p: int| withholds_function(st, w, p);
                    added_record_stays(st, after, p);
                    assert(withholds_function(after, w, p));
                } else {
                    let (p, q) = choose|p: int, q: int| withholds_member(st, w, p, q);
                    added_record_stays(st, after, p);
                    assert(withholds_member(after, w, p, q));
                }
            }
        },
    }
}

proof fn other_record_stays(st: DefinitionsView, after: DefinitionsView, at: int, p: int)
    requires
        0 <= p < st.public_tools.len(),
        own_record(st, p) is Some,
        after.public_tools == st.public_tools,
        0 <= at < st.definitions.len(),
        after.definitions == st.definitions.update(
            at,
            DefinitionRecordView { loaded: true, ..st.definitions[at] },
        ),
        own_record(st, p)->0.identity != st.definitions[at].identity,
    ensures
        own_record(after, p) == own_record(st, p),
{
    let identity = crate::definitions::identity_of(st.public_tools[p])->Ok_0->0;
    let name = crate::definitions::identity_name(identity);
    find_record_is_first(st.definitions, name, 0);
    find_record_stays(st.definitions, after.definitions, name, 0);
}

proof fn added_record_stays(st: DefinitionsView, after: DefinitionsView, p: int)
    requires
        0 <= p < st.public_tools.len() <= after.public_tools.len(),
        own_record(st, p) is Some,
        after.public_tools[p] == st.public_tools[p],
        st.definitions.len() <= after.definitions.len(),
        forall|j: int|
            0 <= j < st.definitions.len() ==> (#[trigger] st.definitions[j])
                == after.definitions[j],
    ensures
        own_record(after, p) == own_record(st, p),
{
    let identity = crate::definitions::identity_of(st.public_tools[p])->Ok_0->0;
    let name = crate::definitions::identity_name(identity);
    find_record_is_first(st.definitions, name, 0);
    find_record_stays(st.definitions, after.definitions, name, 0);
    let j = crate::definitions::find_record(st.definitions, name, 0)->0;
    assert(st.definitions[j] == after.definitions[j]);
}

proof fn load_all_keeps(
    tools: Seq<ResponsesToolView>,
    st: DefinitionsView,
    trusted: Set<LoadedToolIdentityView>,
    position: Option<usize>,
    n: int,
)
    requires
        consistent(st),
        crate::search::load_all(tools, st, trusted, position, n) is Ok,
    ensures
        consistent(crate::search::load_all(tools, st, trusted, position, n)->Ok_0),
    decreases n,
{
    if n > 0 {
        let before = crate::search::load_all(tools, st, trusted, position, n - 1)->Ok_0;
        load_all_keeps(tools, st, trusted, position, n - 1);
        load_keeps(tools[n - 1], before, trusted, position);
    }
}

/// What is withheld and what is declared, whatever calls a history makes.
proof fn same_definitions(a: DefinitionsView, b: DefinitionsView)
    requires
        consistent(a),
        a.public_tools == b.public_tools,
        a.definitions == b.definitions,
        a.withheld_function_names == b.withheld_function_names,
    ensures
        consistent(b),
{
    assert forall|i: int| 0 <= i < b.definitions.len() implies placed(b, #[trigger]
        b.definitions[i]) by {
        assert(placed(a, a.definitions[i]));
    }
    assert forall|p: int| #[trigger] own_record(b, p) == own_record(a, p) by {}
    assert forall|name: Seq<char>| #[trigger]
        b.withheld_function_names.contains(name) implies unloaded(b, name) by {
        if exists|p: int| withholds_function(a, name, p) {
            let p = choose|p: int| withholds_function(a, name, p);
            assert(own_record(b, p) == own_record(a, p));
            assert(withholds_function(b, name, p));
        } else {
            let (p, q) = choose|p: int, q: int| withholds_member(a, name, p, q);
            assert(own_record(b, p) == own_record(a, p));
            assert(withholds_member(b, name, p, q));
        }
    }
}

proof fn history_step_keeps(
    item: InputItemView,
    h: HistoryView,
    trusted: Set<LoadedToolIdentityView>,
    position: usize,
)
    requires
        consistent(h.defs),
        crate::search::history_step(item, h, trusted, position) is Ok,
    ensures
        consistent(crate::search::history_step(item, h, trusted, position)->Ok_0.defs),
{
    let after = crate::search::history_step(item, h, trusted, position)->Ok_0;
    match item {
        InputItemView::ToolSearchOutput(output) => {
            load_all_keeps(
                output.tools,
                h.defs,
                trusted,
                Some(position),
                output.tools.len() as int,
            );
        },
        _ => {
            same_definitions(h.defs, after.defs);
        },
    }
}

proof fn read_history_keeps(
    items: Seq<InputItemView>,
    h: HistoryView,
    trusted: Set<LoadedToolIdentityView>,
    n: int,
)
    requires
        consistent(h.defs),
        crate::search::read_history(items, h, trusted, n) is Ok,
    ensures
        consistent(crate::search::read_history(items, h, trusted, n)->Ok_0.defs),
    decreases n,
{
    if n > 0 {
        let before = crate::search::read_history(items, h, trusted, n - 1)->Ok_0;
        read_history_keeps(items, h, trusted, n - 1);
        history_step_keeps(items[n - 1], before, trusted, (n - 1) as usize);
    }
}

proof fn restore_all_keeps(
    restored: Seq<ResponsesToolView>,
    defs: DefinitionsView,
    only_declared: bool,
    n: int,
)
    requires
        consistent(defs),
        crate::search::restore_all(restored, defs, only_declared, n) is Ok,
    ensures
        consistent(crate::search::restore_all(restored, defs, only_declared, n)->Ok_0.0),
    decreases n,
{
    if n > 0 {
        let before = crate::search::restore_all(restored, defs, only_declared, n - 1)->Ok_0;
        if let Ok(Some(tool)) = crate::search::restored_definition(
            restored[n - 1],
            before.0,
            only_declared,
        ) {
            restore_all_keeps(restored, defs, only_declared, n - 1);
            load_keeps(tool, before.0, Set::empty(), None);
        } else {
            restore_all_keeps(restored, defs, only_declared, n - 1);
        }
    }
}

/// The records of members are those of the members, each found by its name.
proof fn member_records_are_members(namespace: CodexNamespaceToolParamView, loaded: bool, n: int)
    requires
        0 <= n <= namespace.tools.len(),
        crate::definitions::member_records(namespace, loaded, n) is Ok,
    ensures
        crate::definitions::member_records(namespace, loaded, n)->Ok_0.len() == n,
        forall|q: int|
            0 <= q < n ==> member_has_record(
                crate::definitions::member_records(namespace, loaded, n)->Ok_0,
                #[trigger] namespace.tools[q],
                loaded,
                q,
            ),
    decreases n,
{
    if n > 0 {
        member_records_are_members(namespace, loaded, n - 1);
        let before = crate::definitions::member_records(namespace, loaded, n - 1)->Ok_0;
        let after = crate::definitions::member_records(namespace, loaded, n)->Ok_0;
        assert forall|q: int| 0 <= q < n implies member_has_record(
            after,
            #[trigger] namespace.tools[q],
            loaded,
            q,
        ) by {
            let f = namespace.tools[q]->Function_0;
            if q < n - 1 {
                assert(member_has_record(before, namespace.tools[q], loaded, q));
                find_member_stays(before, after, f.name, 0);
            } else {
                find_member_added(before, after.last(), f.name, 0);
            }
        }
    }
}

proof fn find_member_added(
    before: Seq<NamespaceMemberRecordView>,
    record: NamespaceMemberRecordView,
    name: Seq<char>,
    i: int,
)
    requires
        0 <= i <= before.len(),
        crate::definitions::find_member(before, name, i) is None,
        record.name == name,
    ensures
        crate::definitions::find_member(before.push(record), name, i) == Some(before.len() as int),
    decreases before.len() - i,
{
    if i < before.len() {
        find_member_added(before, record, name, i + 1);
    }
}

/// Whether a member has a record at its place, found by its name.
spec fn member_has_record(
    records: Seq<NamespaceMemberRecordView>,
    member: CodexNamespaceMemberView,
    loaded: bool,
    q: int,
) -> bool {
    &&& member matches CodexNamespaceMemberView::Function(f)
    &&& crate::definitions::find_member(records, f.name, 0) == Some(q)
    &&& records[q].loaded == (loaded || f.defer_loading != Some(true))
}

/// Whether the declaration at a place has the record that it started with.
spec fn has_first_record(
    tools: Seq<ResponsesToolView>,
    records: Seq<DefinitionRecordView>,
    p: int,
) -> bool {
    match crate::definitions::identity_of(tools[p]) {
        Err(_) => false,
        Ok(None) => true,
        Ok(Some(identity)) => crate::definitions::find_record(
            records,
            crate::definitions::identity_name(identity),
            0,
        ) matches Some(at) && crate::definitions::record_of(
            tools[p],
            identity,
            p as nat,
            false,
        ) == Ok::<_, ToolErrorView>(records[at]),
    }
}

proof fn find_record_added(
    before: Seq<DefinitionRecordView>,
    record: DefinitionRecordView,
    name: Seq<char>,
    i: int,
)
    requires
        0 <= i <= before.len(),
        crate::definitions::find_record(before, name, i) is None,
        crate::definitions::identity_name(record.identity) == name,
    ensures
        crate::definitions::find_record(before.push(record), name, i) == Some(before.len() as int),
    decreases before.len() - i,
{
    if i < before.len() {
        find_record_added(before, record, name, i + 1);
    }
}

proof fn initial_records_are_placed(tools: Seq<ResponsesToolView>, n: int)
    requires
        0 <= n <= tools.len(),
        crate::definitions::initial_records(tools, n) is Ok,
    ensures
        forall|p: int|
            0 <= p < n ==> #[trigger] has_first_record(
                tools,
                crate::definitions::initial_records(tools, n)->Ok_0,
                p,
            ),
        forall|i: int|
            0 <= i < crate::definitions::initial_records(tools, n)->Ok_0.len() ==> record_placed(
                tools,
                #[trigger] crate::definitions::initial_records(tools, n)->Ok_0[i],
                n,
            ),
    decreases n,
{
    if n > 0 {
        initial_records_are_placed(tools, n - 1);
        let before = crate::definitions::initial_records(tools, n - 1)->Ok_0;
        let after = crate::definitions::initial_records(tools, n)->Ok_0;
        assert forall|p: int| 0 <= p < n implies #[trigger] has_first_record(tools, after, p) by {
            if p < n - 1 {
                assert(has_first_record(tools, before, p));
                if let Ok(Some(identity)) = crate::definitions::identity_of(tools[p]) {
                    let name = crate::definitions::identity_name(identity);
                    find_record_is_first(before, name, 0);
                    find_record_stays(before, after, name, 0);
                }
            } else if let Ok(Some(identity)) = crate::definitions::identity_of(tools[p]) {
                find_record_added(
                    before,
                    after.last(),
                    crate::definitions::identity_name(identity),
                    0,
                );
            }
        }
        assert forall|i: int| 0 <= i < after.len() implies record_placed(
            tools,
            #[trigger] after[i],
            n,
        ) by {
            if i < before.len() {
                assert(record_placed(tools, before[i], n - 1));
                assert(after[i] == before[i]);
            }
        }
    }
}

/// Whether a record is that of one of the first `n` declarations.
spec fn record_placed(tools: Seq<ResponsesToolView>, record: DefinitionRecordView, n: int) -> bool {
    &&& record.public_index < n
    &&& crate::definitions::identity_of(tools[record.public_index as int]) == Ok::<
        _,
        ToolErrorView,
    >(Some(record.identity))
}

/// A name that is withheld at first is that of a deferred function or member.
proof fn withheld_at_first(tools: Seq<ResponsesToolView>, name: Seq<char>) -> (place: (int, int))
    requires
        crate::definitions::initially_withheld(tools).contains(name),
    ensures
        0 <= place.0 < tools.len(),
        match tools[place.0] {
            ResponsesToolView::Function(f) => f.name == name && f.defer_loading == Some(true),
            ResponsesToolView::Namespace(n) => 0 <= place.1 < n.tools.len() && (
            n.tools[place.1] matches CodexNamespaceMemberView::Function(f)
                && crate::names::member_name(n.name, f.name) == name && f.defer_loading == Some(
                true,
            )),
            _ => false,
        },
    decreases tools.len(),
{
    let last = tools.last();
    let rest = tools.drop_last();
    if crate::definitions::initially_withheld(rest).contains(name) {
        let place = withheld_at_first(rest, name);
        assert(rest[place.0] == tools[place.0]);
        place
    } else {
        match last {
            ResponsesToolView::Namespace(n) => {
                let q = withheld_member_at_first(n.name, n.tools, name);
                (tools.len() - 1, q)
            },
            _ => (tools.len() - 1, 0),
        }
    }
}

proof fn withheld_member_at_first(
    namespace: Seq<char>,
    members: Seq<CodexNamespaceMemberView>,
    name: Seq<char>,
) -> (q: int)
    requires
        crate::definitions::withheld_members(namespace, members).contains(name),
    ensures
        0 <= q < members.len(),
        members[q] matches CodexNamespaceMemberView::Function(f) && crate::names::member_name(
            namespace,
            f.name,
        ) == name && f.defer_loading == Some(true),
    decreases members.len(),
{
    let rest = members.drop_last();
    if crate::definitions::withheld_members(namespace, rest).contains(name) {
        let q = withheld_member_at_first(namespace, rest, name);
        assert(rest[q] == members[q]);
        q
    } else {
        members.len() - 1
    }
}

proof fn initially_consistent(tools: Seq<ResponsesToolView>)
    requires
        crate::search::initial_definitions(tools) is Ok,
    ensures
        consistent(crate::search::initial_definitions(tools)->Ok_0),
{
    let defs = crate::search::initial_definitions(tools)->Ok_0;
    let n = tools.len() as int;
    initial_records_are_placed(tools, n);
    assert forall|i: int| 0 <= i < defs.definitions.len() implies placed(defs, #[trigger]
        defs.definitions[i]) by {
        assert(record_placed(tools, defs.definitions[i], n));
    }
    assert forall|name: Seq<char>| #[trigger]
        defs.withheld_function_names.contains(name) implies unloaded(defs, name) by {
        let (p, q) = withheld_at_first(tools, name);
        assert(has_first_record(tools, defs.definitions, p));
        match tools[p] {
            ResponsesToolView::Function(f) => {
                assert(withholds_function(defs, name, p));
            },
            ResponsesToolView::Namespace(namespace) => {
                member_records_are_members(namespace, false, namespace.tools.len() as int);
                let records = crate::definitions::member_records(
                    namespace,
                    false,
                    namespace.tools.len() as int,
                )->Ok_0;
                assert(member_has_record(records, namespace.tools[q], false, q));
                assert(withholds_member(defs, name, p, q));
            },
            _ => {},
        }
    }
}

/// Each declaration that the model is shown comes from a public one.
proof fn private_tool_from(
    tools: Seq<ResponsesToolView>,
    definitions: Seq<DefinitionRecordView>,
    synthetic: Option<FunctionToolView>,
    i: int,
) -> (p: int)
    requires
        0 <= i < crate::search::private_tools(tools, definitions, synthetic).len(),
    ensures
        0 <= p < tools.len(),
        crate::search::private_tool(tools[p], definitions, synthetic) == Some(
            crate::search::private_tools(tools, definitions, synthetic)[i],
        ),
    decreases tools.len(),
{
    let rest = tools.drop_last();
    let before = crate::search::private_tools(rest, definitions, synthetic);
    if i < before.len() {
        let p = private_tool_from(rest, definitions, synthetic, i);
        assert(rest[p] == tools[p]);
        p
    } else {
        tools.len() - 1
    }
}

proof fn private_member_from(
    tools: Seq<CodexNamespaceMemberView>,
    records: Seq<NamespaceMemberRecordView>,
    i: int,
) -> (q: int)
    requires
        0 <= i < crate::search::private_members(tools, records).len(),
        crate::search::private_members(tools, records)[i] is Function,
    ensures
        0 <= q < tools.len(),
        tools[q] matches CodexNamespaceMemberView::Function(f) && f.name
            == crate::search::private_members(tools, records)[i]->Function_0.name && (
        crate::definitions::find_member(records, f.name, 0) matches Some(k) && records[k].loaded),
    decreases tools.len(),
{
    let rest = tools.drop_last();
    let before = crate::search::private_members(rest, records);
    if i < before.len() {
        let q = private_member_from(rest, records, i);
        assert(rest[q] == tools[q]);
        q
    } else {
        tools.len() - 1
    }
}

/// No name of a declaration that the model is shown is withheld.
pub open spec fn shows_only_loaded(tool: ResponsesToolView, withheld: Set<Seq<char>>) -> bool {
    match tool {
        ResponsesToolView::Function(f) => !withheld.contains(f.name),
        ResponsesToolView::Namespace(n) => forall|q: int|
            0 <= q < n.tools.len() ==> shows_member(n.name, #[trigger] n.tools[q], withheld),
        _ => true,
    }
}

/// No name of a member that the model is shown is withheld.
pub open spec fn shows_member(
    namespace: Seq<char>,
    member: CodexNamespaceMemberView,
    withheld: Set<Seq<char>>,
) -> bool {
    member matches CodexNamespaceMemberView::Function(f) ==> !withheld.contains(
        crate::names::member_name(namespace, f.name),
    )
}

proof fn private_tools_are_loaded(
    defs: DefinitionsView,
    declaration: Option<crate::tools::ToolSearchToolParamView>,
    input: ResponsesInputView,
    present: bool,
    i: int,
)
    requires
        consistent(defs),
        crate::search::finished_state(present, declaration, defs, input) matches Ok(state) && (
        state.private_upstream_tools matches Some(tools) && 0 <= i < tools.len()),
    ensures
        shows_only_loaded(
            crate::search::finished_state(
                present,
                declaration,
                defs,
                input,
            )->Ok_0.private_upstream_tools->0[i],
            defs.withheld_function_names,
        ),
{
    let state = crate::search::finished_state(present, declaration, defs, input)->Ok_0;
    let tools = state.private_upstream_tools->0;
    let p = private_tool_from(defs.public_tools, defs.definitions, state.synthetic_function, i);
    let public = defs.public_tools[p];
    match tools[i] {
        ResponsesToolView::Function(g) => {
            if defs.withheld_function_names.contains(g.name) {
                assert(unloaded(defs, g.name));
                if exists|w: int| withholds_function(defs, g.name, w) {
                    let w = choose|w: int| withholds_function(defs, g.name, w);
                    match public {
                        ResponsesToolView::Function(_) => {
                            crate::names::names_of_two(defs.public_tools, p, 0, w, 0);
                        },
                        _ => {
                            assert(g.name == "tool_search"@);
                        },
                    }
                } else {
                    let (w, q) = choose|w: int, q: int| withholds_member(defs, g.name, w, q);
                    let n = defs.public_tools[w]->Namespace_0;
                    crate::names::member_name_at(n.name, n.tools, q);
                    match public {
                        ResponsesToolView::Function(_) => {
                            crate::names::names_of_two(
                                defs.public_tools,
                                p,
                                0,
                                w,
                                crate::names::member_place(n.name, n.tools, q),
                            );
                        },
                        _ => {
                            crate::names::member_name_has_prefix(
                                n.name,
                                n.tools[q]->Function_0.name,
                            );
                            reveal_strlit("agentic_ns__");
                            reveal_strlit("tool_search");
                        },
                    }
                }
            }
        },
        ResponsesToolView::Namespace(shown) => {
            let n = public->Namespace_0;
            let record = crate::search::record_for(public, defs.definitions)->0;
            let members = record.members->0;
            assert forall|r: int| 0 <= r < shown.tools.len() implies shows_member(
                shown.name,
                #[trigger] shown.tools[r],
                defs.withheld_function_names,
            ) by {
                if shown.tools[r] is Function {
                    let q = private_member_from(n.tools, members, r);
                    let f = n.tools[q]->Function_0;
                    let name = crate::names::member_name(n.name, f.name);
                    crate::names::member_name_at(n.name, n.tools, q);
                    if defs.withheld_function_names.contains(name) {
                        assert(unloaded(defs, name));
                        if exists|w: int| withholds_function(defs, name, w) {
                            let w = choose|w: int| withholds_function(defs, name, w);
                            crate::names::names_of_two(
                                defs.public_tools,
                                p,
                                crate::names::member_place(n.name, n.tools, q),
                                w,
                                0,
                            );
                        } else {
                            let (w, v) = choose|w: int, v: int| withholds_member(defs, name, w, v);
                            let other = defs.public_tools[w]->Namespace_0;
                            crate::names::member_name_at(other.name, other.tools, v);
                            crate::names::names_of_two(
                                defs.public_tools,
                                p,
                                crate::names::member_place(n.name, n.tools, q),
                                w,
                                crate::names::member_place(other.name, other.tools, v),
                            );
                            if q < v {
                                crate::names::member_places_grow(n.name, n.tools, q, v);
                            } else if v < q {
                                crate::names::member_places_grow(n.name, n.tools, v, q);
                            }
                        }
                    }
                }
            }
        },
        _ => {},
    }
}

/// Whatever a request declares, and whatever its history and earlier responses loaded, the
/// model is shown no function whose name is withheld.
pub proof fn withheld_functions_are_not_shown(
    request: RequestPayloadView,
    restored: Seq<ResponsesToolView>,
    only_declared: bool,
    i: int,
)
    requires
        crate::search::state_of(request, restored, only_declared) matches Ok(state) && state.active
            && (state.private_upstream_tools matches Some(tools) && 0 <= i < tools.len()),
    ensures
        shows_only_loaded(
            crate::search::state_of(
                request,
                restored,
                only_declared,
            )->Ok_0.private_upstream_tools->0[i],
            crate::search::state_of(request, restored, only_declared)->Ok_0.withheld_function_names,
        ),
{
    let tools = crate::readiness::declared_tools(request.tools);
    let declaration = crate::search::search_declaration(tools, 0);
    let start = crate::search::initial_definitions(tools)->Ok_0;
    let (loaded, trusted) = crate::search::restore_all(
        restored,
        start,
        only_declared,
        restored.len() as int,
    )->Ok_0;
    let active = crate::convert::shown_input(request.input);
    let (defs, input) = crate::search::prepared_history(active, loaded, trusted)->Ok_0;
    if let ResponsesInputView::Items(items) = active {
    }
    initially_consistent(tools);
    restore_all_keeps(restored, start, only_declared, restored.len() as int);
    if let ResponsesInputView::Items(items) = active {
        read_history_keeps(
            items,
            crate::search::history_start(loaded),
            trusted,
            items.len() as int,
        );
    }
    private_tools_are_loaded(defs, declaration, input, request.tools is Some, i);
}

/// The model is shown a history item by item: searches as calls of the search function and
/// what they found as its outputs, and each other item as it was.
pub proof fn history_is_shown_item_by_item(
    items: Seq<InputItemView>,
    defs: DefinitionsView,
    trusted: Set<LoadedToolIdentityView>,
)
    requires
        crate::search::prepared_history(ResponsesInputView::Items(items), defs, trusted) is Ok,
    ensures
        crate::search::prepared_history(
            ResponsesInputView::Items(items),
            defs,
            trusted,
        )->Ok_0.1 matches ResponsesInputView::Items(shown) && shown.len() == items.len() && forall|
            i: int,
        |
            0 <= i < items.len() ==> shown_as(items[i], #[trigger] shown[i]),
{
    history_shown_so_far(
        items,
        crate::search::history_start(defs),
        trusted,
        items.len() as int,
    );
}

/// Whether an item of a history is shown as another.
pub open spec fn shown_as(item: InputItemView, shown: InputItemView) -> bool {
    match item {
        InputItemView::ToolSearchCall(call) => shown == InputItemView::FunctionCall(
            InputFunctionToolCallView {
                id: Some(call.id),
                call_id: call.call_id,
                name: "tool_search"@,
                namespace: None,
                arguments: crate::json::json_text(JsonView::Object(call.arguments)),
                status: Some(MessageStatus::Completed),
            },
        ),
        InputItemView::ToolSearchOutput(output) => crate::search::projected_all(
            output.tools,
            output.tools.len() as int,
        ) matches Some(found) && shown == InputItemView::FunctionCallOutput(
            FunctionToolResultMessageView {
                call_id: output.call_id,
                output: crate::json::json_text(
                    JsonView::Object(
                        Map::<Seq<char>, JsonView>::empty().insert(
                            "tools"@,
                            JsonView::Array(found),
                        ),
                    ),
                ),
            },
        ),
        other => shown == other,
    }
}

proof fn history_shown_so_far(
    items: Seq<InputItemView>,
    h: HistoryView,
    trusted: Set<LoadedToolIdentityView>,
    n: int,
)
    requires
        0 <= n <= items.len(),
        h.items.len() == 0,
        crate::search::read_history(items, h, trusted, n) is Ok,
    ensures
        crate::search::read_history(items, h, trusted, n)->Ok_0.items.len() == n,
        forall|i: int|
            0 <= i < n ==> shown_as(
                items[i],
                #[trigger] crate::search::read_history(items, h, trusted, n)->Ok_0.items[i],
            ),
    decreases n,
{
    if n > 0 {
        history_shown_so_far(items, h, trusted, n - 1);
        let before = crate::search::read_history(items, h, trusted, n - 1)->Ok_0;
        let after = crate::search::read_history(items, h, trusted, n)->Ok_0;
        assert forall|i: int| 0 <= i < n implies shown_as(items[i], #[trigger] after.items[i]) by {
            if i < n - 1 {
                assert(after.items[i] == before.items[i]);
                assert(shown_as(items[i], before.items[i]));
            }
        }
    }
}

/// Whether a declaration is no search and has nothing whose schema is deferred.
pub open spec fn nothing_deferred(tool: ResponsesToolView) -> bool {
    match tool {
        ResponsesToolView::ToolSearch(_) => false,
        ResponsesToolView::Function(f) => f.defer_loading != Some(true),
        ResponsesToolView::Mcp(m) => m.defer_loading != Some(true),
        ResponsesToolView::Namespace(n) => forall|q: int|
            0 <= q < n.tools.len() ==> member_not_deferred(#[trigger] n.tools[q]),
        _ => true,
    }
}

/// Whether a member is no function whose schema is deferred.
pub open spec fn member_not_deferred(member: CodexNamespaceMemberView) -> bool {
    member matches CodexNamespaceMemberView::Function(f) ==> f.defer_loading != Some(true)
}

proof fn private_members_are_not_deferred(
    tools: Seq<CodexNamespaceMemberView>,
    records: Seq<NamespaceMemberRecordView>,
)
    ensures
        forall|q: int|
            0 <= q < crate::search::private_members(tools, records).len() ==> member_not_deferred(
                #[trigger] crate::search::private_members(tools, records)[q],
            ),
    decreases tools.len(),
{
    if tools.len() > 0 {
        private_members_are_not_deferred(tools.drop_last(), records);
        let before = crate::search::private_members(tools.drop_last(), records);
        let after = crate::search::private_members(tools, records);
        assert forall|q: int| 0 <= q < after.len() implies member_not_deferred(
            #[trigger] after[q],
        ) by {
            if q < before.len() {
                assert(after[q] == before[q]);
                assert(member_not_deferred(before[q]));
            }
        }
    }
}

/// The tools that the model is shown of a request with tool search hold no search declaration
/// and nothing deferred, and the request that shows them differs from the public one in its
/// input and its tools alone.
pub proof fn nothing_deferred_is_shown(
    request: RequestPayloadView,
    restored: Seq<ResponsesToolView>,
    only_declared: bool,
    public: RequestPayloadView,
)
    requires
        crate::search::state_of(request, restored, only_declared) matches Ok(state)
            && state.active,
    ensures
        crate::search::state_of(
            request,
            restored,
            only_declared,
        )->Ok_0.private_upstream_tools matches Some(tools) ==> forall|i: int|
            0 <= i < tools.len() ==> nothing_deferred(#[trigger] tools[i]),
        (RequestPayloadView {
            input: public.input,
            tools: public.tools,
            ..crate::request::private_request(
                crate::search::state_of(request, restored, only_declared)->Ok_0,
                public,
            )
        }) == public,
{
    let state = crate::search::state_of(request, restored, only_declared)->Ok_0;
    let declared = crate::readiness::declared_tools(request.tools);
    let start = crate::search::initial_definitions(declared)->Ok_0;
    let (loaded, trusted) = crate::search::restore_all(
        restored,
        start,
        only_declared,
        restored.len() as int,
    )->Ok_0;
    let active = crate::convert::shown_input(request.input);
    let (defs, input) = crate::search::prepared_history(active, loaded, trusted)->Ok_0;
    if let Some(tools) = state.private_upstream_tools {
        assert(tools == crate::search::private_tools(
            defs.public_tools,
            defs.definitions,
            state.synthetic_function,
        ));
        assert forall|i: int| 0 <= i < tools.len() implies nothing_deferred(#[trigger] tools[i]) by {
            let p = private_tool_from(
                defs.public_tools,
                defs.definitions,
                state.synthetic_function,
                i,
            );
            if let ResponsesToolView::Namespace(n) = defs.public_tools[p] {
                let record = crate::search::record_for(
                    defs.public_tools[p],
                    defs.definitions,
                )->0;
                private_members_are_not_deferred(n.tools, record.members->0);
            }
        }
    }
}

/// Whether a declaration was deferred: a function or a server that says so, or a namespace with
/// a member that says so.
pub open spec fn is_deferred(tool: ResponsesToolView) -> bool {
    match tool {
        ResponsesToolView::Function(f) => f.defer_loading == Some(true),
        ResponsesToolView::Mcp(m) => m.defer_loading == Some(true),
        ResponsesToolView::Namespace(n) => exists|q: int|
            0 <= q < n.tools.len() && is_deferred_member(#[trigger] n.tools[q]),
        _ => false,
    }
}

/// Whether a member of a namespace was deferred.
pub open spec fn is_deferred_member(member: CodexNamespaceMemberView) -> bool {
    member matches CodexNamespaceMemberView::Function(f) && f.defer_loading == Some(true)
}

proof fn first_members_are_loaded_unless_deferred(namespace: CodexNamespaceToolParamView, n: int)
    requires
        0 <= n <= namespace.tools.len(),
        crate::definitions::member_records(namespace, false, n) is Ok,
    ensures
        crate::definitions::member_records(namespace, false, n)->Ok_0.len() == n,
        forall|i: int|
            0 <= i < n ==> (
            #[trigger] crate::definitions::member_records(namespace, false, n)->Ok_0[i]).loaded
                == !is_deferred_member(namespace.tools[i]),
    decreases n,
{
    if n > 0 {
        first_members_are_loaded_unless_deferred(namespace, n - 1);
        let before = crate::definitions::member_records(namespace, false, n - 1)->Ok_0;
        let after = crate::definitions::member_records(namespace, false, n)->Ok_0;
        assert forall|i: int| 0 <= i < n implies (#[trigger] after[i]).loaded
            == !is_deferred_member(namespace.tools[i]) by {
            if i < n - 1 {
                assert(after[i] == before[i]);
            }
        }
    }
}

proof fn first_record_awaits_search(tools: Seq<ResponsesToolView>, p: int) -> (at: int)
    requires
        crate::definitions::initial_records(tools, tools.len() as int) is Ok,
        0 <= p < tools.len(),
        crate::search_laws::searched_name(tools[p]) is Some,
    ensures
        crate::search_laws::is_known_at(
            tools[p],
            crate::definitions::initial_records(tools, tools.len() as int)->Ok_0,
            at,
        ),
        crate::search_laws::awaits_search(
            tools[p],
            crate::definitions::initial_records(tools, tools.len() as int)->Ok_0[at],
        ) == is_deferred(tools[p]),
{
    let records = crate::definitions::initial_records(tools, tools.len() as int)->Ok_0;
    initial_records_are_placed(tools, tools.len() as int);
    assert(has_first_record(tools, records, p));
    let identity = crate::definitions::identity_of(tools[p])->Ok_0->0;
    let name = crate::definitions::identity_name(identity);
    crate::search_laws::found_is_first(records, name, 0);
    let at = crate::definitions::find_record(records, name, 0)->0;
    assert(crate::search_laws::is_known_at(tools[p], records, at));
    if let ResponsesToolView::Namespace(n) = tools[p] {
        first_members_are_loaded_unless_deferred(n, n.tools.len() as int);
        let members = records[at].members->0;
        if is_deferred(tools[p]) {
            let q = choose|q: int|
                0 <= q < n.tools.len() && is_deferred_member(#[trigger] n.tools[q]);
            assert(!members[q].loaded);
        }
        if exists|i: int| 0 <= i < members.len() && !(#[trigger] members[i]).loaded {
            let i = choose|i: int| 0 <= i < members.len() && !(#[trigger] members[i]).loaded;
            assert(is_deferred_member(n.tools[i]));
        }
    }
    at
}

/// Whether entries are the catalog of what was declared deferred: each such declaration has an
/// entry with its name and its description, and each entry is of such a declaration.
pub open spec fn is_catalog_of(
    entries: Seq<CatalogEntryView>,
    tools: Seq<ResponsesToolView>,
) -> bool {
    &&& forall|p: int|
        0 <= p < tools.len() && is_deferred(#[trigger] tools[p]) ==> exists|k: int|
            0 <= k < entries.len() && crate::search_laws::is_entry_of(
                #[trigger] entries[k],
                tools[p],
            )
    &&& forall|k: int|
        0 <= k < entries.len() ==> exists|p: int|
            0 <= p < tools.len() && is_deferred(#[trigger] tools[p])
                && crate::search_laws::is_entry_of(#[trigger] entries[k], tools[p])
}

/// Whether a function stands for the search that is declared at a place, and tells of the
/// catalog of what the declarations defer.
pub open spec fn tells_of_catalog(
    function: FunctionToolView,
    tools: Seq<ResponsesToolView>,
    i: int,
    entries: Seq<CatalogEntryView>,
) -> bool {
    &&& 0 <= i < tools.len()
    &&& is_catalog_of(entries, tools)
    &&& tools[i] matches ResponsesToolView::ToolSearch(d) && function.description == Some(
        crate::search::search_description(d, entries),
    ) && function.parameters == Some(JsonView::Object(d.parameters))
}

/// The model is told of everything that a request defers, and of nothing else: the function that
/// stands for the search tells of a catalog with an entry for each deferred function, each
/// deferred server, and each namespace with a deferred member.
pub proof fn deferred_tools_are_in_the_catalog(
    request: RequestPayloadView,
    only_declared: bool,
)
    requires
        request.input is Text,
        crate::search::state_of(request, Seq::empty(), only_declared) matches Ok(state)
            && state.active && state.synthetic_function is Some,
    ensures
        ({
            let function = crate::search::state_of(
                request,
                Seq::empty(),
                only_declared,
            )->Ok_0.synthetic_function->0;
            let tools = request.tools->0;
            &&& request.tools is Some
            &&& function.name == "tool_search"@
            &&& exists|i: int, entries: Seq<CatalogEntryView>| #[trigger]
                tells_of_catalog(function, tools, i, entries)
        }),
{
    let tools = crate::readiness::declared_tools(request.tools);
    let defs = crate::search::initial_definitions(tools)->Ok_0;
    let records = crate::definitions::initial_records(tools, tools.len() as int)->Ok_0;
    let none = Seq::<ResponsesToolView>::empty();
    assert(crate::search::restore_all(none, defs, only_declared, 0)->Ok_0.0 == defs);
    assert(crate::convert::shown_input(request.input) is Text);
    let declaration = crate::search::search_declaration(tools, 0);
    search_declaration_is_declared(tools, 0);
    let i = choose|i: int|
        0 <= i < tools.len() && #[trigger] tools[i] == ResponsesToolView::ToolSearch(
            declaration->0,
        );
    let entries = crate::search::catalog(tools, records);
    assert forall|p: int| 0 <= p < tools.len() && is_deferred(#[trigger] tools[p]) implies exists|
        k: int,
    |
        0 <= k < entries.len() && crate::search_laws::is_entry_of(
            #[trigger] entries[k],
            tools[p],
        ) by {
        let at = first_record_awaits_search(tools, p);
        crate::search_laws::catalogs_are_complete(tools, records, p, at);
    }
    assert forall|k: int| 0 <= k < entries.len() implies exists|p: int|
        0 <= p < tools.len() && is_deferred(#[trigger] tools[p]) && crate::search_laws::is_entry_of(
            #[trigger] entries[k],
            tools[p],
        ) by {
        crate::search_laws::catalogs_hold_nothing_else(tools, records, k);
        let (p, at) = choose|p: int, at: int|
            0 <= p < tools.len() && crate::search_laws::is_entry_of(
                crate::search::catalog(tools, records)[k],
                #[trigger] tools[p],
            ) && #[trigger] crate::search_laws::is_known_at(tools[p], records, at)
                && crate::search_laws::awaits_search(tools[p], records[at]);
        let other = first_record_awaits_search(tools, p);
        let name = crate::search_laws::searched_name(tools[p])->0;
        if at < other {
            assert(crate::search_laws::record_name(records[at]) != name);
        } else if other < at {
            assert(crate::search_laws::record_name(records[other]) != name);
        }
        assert(is_deferred(tools[p]));
    }
    assert(is_catalog_of(entries, tools));
    let function = crate::search::state_of(
        request,
        Seq::empty(),
        only_declared,
    )->Ok_0.synthetic_function->0;
    assert(function.description == Some(
        crate::search::search_description(declaration->0, entries),
    ));
    assert(tells_of_catalog(function, tools, i, entries));
}

proof fn search_declaration_is_declared(tools: Seq<ResponsesToolView>, i: int)
    requires
        0 <= i,
    ensures
        crate::search::search_declaration(tools, i) matches Some(d) ==> exists|k: int|
            i <= k < tools.len() && #[trigger] tools[k] == ResponsesToolView::ToolSearch(d),
    decreases tools.len() - i,
{
    if i < tools.len() {
        if let ResponsesToolView::ToolSearch(d) = tools[i] {
            assert(tools[i] == ResponsesToolView::ToolSearch(d));
        } else {
            search_declaration_is_declared(tools, i + 1);
        }
    }
}

} // verus!
