//! What a request with tool search is made into: what the model is told that it can search for,
//! what it is shown, and what a search that was answered loads.
use vstd::prelude::*;

#[allow(unused_imports)]
use crate::definitions::{
    DefinitionRecordView, DefinitionsView, LoadedToolIdentityView, MemberLoadView,
    NamespaceMemberRecordView,
};
#[allow(unused_imports)]
use crate::error::ToolErrorView;
#[allow(unused_imports)]
use crate::items::{
    InputFunctionToolCallView, InputItemView, InputToolSearchCallView, ResponsesInputView,
    ToolSearchOutputMessageView,
};
#[allow(unused_imports)]
use crate::json::JsonView;
#[allow(unused_imports)]
use crate::search::{CatalogEntryView, HistoryView};
#[allow(unused_imports)]
use crate::tools::{
    AllowedToolView, CodexNamespaceMemberView, CodexNamespaceToolParamView, FunctionToolParamView,
    FunctionToolView, McpToolParamView, ResponsesToolView, ToolChoiceView, ToolSearchToolParamView,
};

verus! {

/// The name under which a search can load a declaration.
pub open spec fn searched_name(tool: ResponsesToolView) -> Option<Seq<char>> {
    match tool {
        ResponsesToolView::Function(f) => Some(f.name),
        ResponsesToolView::Namespace(n) => Some(n.name),
        ResponsesToolView::Mcp(m) => Some(m.server_label),
        _ => None,
    }
}

/// Whether a declaration can be searched for by its name: it is not blank, and not that of the
/// search itself.
pub open spec fn has_valid_name(tool: ResponsesToolView) -> bool {
    searched_name(tool) matches Some(name) && !crate::text::blank(name) && (tool is Mcp || name
        != "tool_search"@)
}

/// The name of the definition that a record is of.
pub open spec fn record_name(record: DefinitionRecordView) -> Seq<char> {
    match record.identity {
        LoadedToolIdentityView::Function(name) => name,
        LoadedToolIdentityView::Namespace(name) => name,
        LoadedToolIdentityView::Mcp(name) => name,
    }
}

/// Whether the record at a place is the first of a name.
pub open spec fn is_first_of(
    definitions: Seq<DefinitionRecordView>,
    name: Seq<char>,
    at: int,
) -> bool {
    &&& 0 <= at < definitions.len()
    &&& record_name(definitions[at]) == name
    &&& forall|j: int| 0 <= j < at ==> record_name(#[trigger] definitions[j]) != name
}

/// Whether a declaration is known by the record at a place.
pub open spec fn is_known_at(
    tool: ResponsesToolView,
    definitions: Seq<DefinitionRecordView>,
    at: int,
) -> bool {
    has_valid_name(tool) && is_first_of(definitions, searched_name(tool)->0, at)
}

proof fn first_is_found(
    definitions: Seq<DefinitionRecordView>,
    name: Seq<char>,
    at: int,
    i: int,
)
    requires
        is_first_of(definitions, name, at),
        0 <= i <= at,
    ensures
        crate::definitions::find_record(definitions, name, i) == Some(at),
    decreases at - i,
{
    if i < at {
        first_is_found(definitions, name, at, i + 1);
    }
}

pub(crate) proof fn found_is_first(definitions: Seq<DefinitionRecordView>, name: Seq<char>, i: int)
    requires
        0 <= i,
        forall|j: int| 0 <= j < i ==> record_name(#[trigger] definitions[j]) != name,
        i <= definitions.len(),
    ensures
        crate::definitions::find_record(definitions, name, i) matches Some(at) ==> is_first_of(
            definitions,
            name,
            at,
        ),
    decreases definitions.len() - i,
{
    if i < definitions.len() && record_name(definitions[i]) != name {
        found_is_first(definitions, name, i + 1);
    }
}

proof fn known_has_record(
    tool: ResponsesToolView,
    definitions: Seq<DefinitionRecordView>,
    at: int,
)
    requires
        is_known_at(tool, definitions, at),
    ensures
        crate::search::record_for(tool, definitions) == Some(definitions[at]),
{
    first_is_found(definitions, searched_name(tool)->0, at, 0);
}

proof fn record_is_known(tool: ResponsesToolView, definitions: Seq<DefinitionRecordView>)
    ensures
        crate::search::record_for(tool, definitions) matches Some(record) ==> exists|at: int| #[trigger]
            is_known_at(tool, definitions, at) && record == definitions[at],
{
    if let Some(record) = crate::search::record_for(tool, definitions) {
        let name = searched_name(tool)->0;
        found_is_first(definitions, name, 0);
        let at = crate::definitions::find_record(definitions, name, 0)->0;
        assert(is_known_at(tool, definitions, at));
    }
}

/// Whether a declaration holds something that is still to be searched for: a deferred function
/// or server that is not loaded, or a namespace with a member that is not loaded.
pub open spec fn awaits_search(tool: ResponsesToolView, record: DefinitionRecordView) -> bool {
    !record.loaded && match tool {
        ResponsesToolView::Function(f) => f.defer_loading == Some(true),
        ResponsesToolView::Mcp(m) => m.defer_loading == Some(true),
        ResponsesToolView::Namespace(_) => record.members matches Some(members) && exists|i: int|
            0 <= i < members.len() && !(#[trigger] members[i]).loaded,
        _ => false,
    }
}

/// Whether a catalog entry is that of a declaration: it has its name and its description.
pub open spec fn is_entry_of(entry: CatalogEntryView, tool: ResponsesToolView) -> bool {
    match tool {
        ResponsesToolView::Function(f) => entry.name == f.name && entry.description
            == f.description,
        ResponsesToolView::Namespace(n) => entry.name == n.name && entry.description
            == n.description,
        ResponsesToolView::Mcp(m) => entry.name == m.server_label && entry.description
            == m.server_description,
        _ => false,
    }
}

/// What is still to be searched for is in the catalog, with its name and its description.
pub proof fn catalogs_are_complete(
    tools: Seq<ResponsesToolView>,
    definitions: Seq<DefinitionRecordView>,
    p: int,
    at: int,
)
    requires
        0 <= p < tools.len(),
        is_known_at(tools[p], definitions, at),
        awaits_search(tools[p], definitions[at]),
    ensures
        exists|k: int|
            0 <= k < crate::search::catalog(tools, definitions).len() && is_entry_of(
                #[trigger] crate::search::catalog(tools, definitions)[k],
                tools[p],
            ),
    decreases tools.len(),
{
    known_has_record(tools[p], definitions, at);
    let rest = crate::search::catalog(tools.drop_last(), definitions);
    let whole = crate::search::catalog(tools, definitions);
    if p == tools.len() - 1 {
        assert(is_entry_of(whole[whole.len() - 1], tools[p]));
    } else {
        catalogs_are_complete(tools.drop_last(), definitions, p, at);
        let k = choose|k: int| 0 <= k < rest.len() && is_entry_of(#[trigger] rest[k], tools[p]);
        assert(whole[k] == rest[k]);
    }
}

/// The catalog holds nothing else: each entry is of a declaration that is still to be searched
/// for.
pub proof fn catalogs_hold_nothing_else(
    tools: Seq<ResponsesToolView>,
    definitions: Seq<DefinitionRecordView>,
    k: int,
)
    requires
        0 <= k < crate::search::catalog(tools, definitions).len(),
    ensures
        exists|p: int, at: int|
            0 <= p < tools.len() && is_entry_of(
                crate::search::catalog(tools, definitions)[k],
                #[trigger] tools[p],
            ) && #[trigger] is_known_at(tools[p], definitions, at) && awaits_search(
                tools[p],
                definitions[at],
            ),
    decreases tools.len(),
{
    let rest = crate::search::catalog(tools.drop_last(), definitions);
    let whole = crate::search::catalog(tools, definitions);
    if k < rest.len() {
        catalogs_hold_nothing_else(tools.drop_last(), definitions, k);
        let (p, at) = choose|p: int, at: int|
            0 <= p < tools.drop_last().len() && is_entry_of(
                rest[k],
                #[trigger] tools.drop_last()[p],
            ) && #[trigger] is_known_at(tools.drop_last()[p], definitions, at) && awaits_search(
                tools.drop_last()[p],
                definitions[at],
            );
        assert(tools[p] == tools.drop_last()[p]);
        assert(is_known_at(tools[p], definitions, at));
    } else {
        let p = tools.len() - 1;
        record_is_known(tools[p], definitions);
        let record = crate::search::record_for(tools[p], definitions)->0;
        let at = choose|at: int| #[trigger]
            is_known_at(tools[p], definitions, at) && record == definitions[at];
        assert(is_known_at(tools[p], definitions, at));
        assert(is_entry_of(whole[k], tools[p]));
    }
}

/// The catalog goes declaration by declaration: each adds one entry at most, and the entries keep
/// the order of the declarations.
pub proof fn catalogs_keep_the_order(
    first: Seq<ResponsesToolView>,
    second: Seq<ResponsesToolView>,
    definitions: Seq<DefinitionRecordView>,
)
    ensures
        crate::search::catalog(first + second, definitions) == crate::search::catalog(
            first,
            definitions,
        ) + crate::search::catalog(second, definitions),
        crate::search::catalog(second, definitions).len() <= second.len(),
    decreases second.len(),
{
    let a = crate::search::catalog(first, definitions);
    if second.len() == 0 {
        assert(first + second =~= first);
        assert(a + crate::search::catalog(second, definitions) =~= a);
    } else {
        let rest = second.drop_last();
        catalogs_keep_the_order(first, rest, definitions);
        assert((first + second).drop_last() =~= first + rest);
        assert((first + second).last() == second.last());
        assert(crate::search::catalog(first + second, definitions) =~= a + crate::search::catalog(
            second,
            definitions,
        ));
    }
}

/// What the model is told of an entry begins with its name, and says its description where it
/// has one that says anything.
pub proof fn entries_say_what_they_are(entry: CatalogEntryView)
    ensures
        match entry.description {
            Some(d) => if crate::text::blank(d) {
                crate::search::entry_text(entry) == entry.name
            } else {
                crate::search::entry_text(entry) == entry.name + " — "@ + crate::text::trim_text(d)
            },
            None => crate::search::entry_text(entry) == entry.name,
        },
{
}

/// The description of the search is the declaration's own where nothing is left to search for,
/// and tells of a single entry behind it.
pub proof fn single_entries_are_told(
    declaration: ToolSearchToolParamView,
    entry: CatalogEntryView,
)
    ensures
        crate::search::search_description(declaration, Seq::empty()) == declaration.description,
        crate::search::search_description(declaration, seq![entry])
            == crate::text::trim_end_matches_text(
            crate::text::trim_text(declaration.description),
            '.',
        ) + ". Available catalog entry: "@ + crate::search::entry_text(entry) + "."@,
{
    reveal_strlit(". Available catalog ");
    reveal_strlit("entry");
    reveal_strlit(": ");
    reveal_strlit(". Available catalog entry: ");
    let own = crate::text::trim_end_matches_text(
        crate::text::trim_text(declaration.description),
        '.',
    );
    let texts = crate::search::entry_texts(seq![entry]);
    assert(texts =~= seq![crate::search::entry_text(entry)]);
    assert(". Available catalog "@ + "entry"@ + ": "@ =~= ". Available catalog entry: "@);
    assert(crate::search::search_description(declaration, seq![entry]) =~= own
        + ". Available catalog entry: "@ + crate::search::entry_text(entry) + "."@);
}

/// More entries are told of one behind the other, in their order.
pub proof fn more_entries_are_told(
    declaration: ToolSearchToolParamView,
    entries: Seq<CatalogEntryView>,
    entry: CatalogEntryView,
)
    requires
        entries.len() >= 1,
    ensures
        entries.len() >= 2 ==> crate::search::search_description(declaration, entries.push(entry))
            == crate::search::search_description(declaration, entries).drop_last() + "; "@
            + crate::search::entry_text(entry) + "."@,
        entries.len() == 1 ==> crate::search::search_description(declaration, entries.push(entry))
            == crate::text::trim_end_matches_text(
            crate::text::trim_text(declaration.description),
            '.',
        ) + ". Available catalog entries: "@ + crate::search::entry_text(entries[0]) + "; "@
            + crate::search::entry_text(entry) + "."@,
{
    reveal_strlit(". Available catalog ");
    reveal_strlit("entries");
    reveal_strlit(": ");
    reveal_strlit(".");
    reveal_strlit(". Available catalog entries: ");
    let own = crate::text::trim_end_matches_text(
        crate::text::trim_text(declaration.description),
        '.',
    );
    let texts = crate::search::entry_texts(entries.push(entry));
    assert(texts.drop_last() =~= crate::search::entry_texts(entries));
    assert(texts.last() == crate::search::entry_text(entry));
    assert(". Available catalog "@ + "entries"@ + ": "@ =~= ". Available catalog entries: "@);
    let before = crate::text::join_text(crate::search::entry_texts(entries), "; "@);
    assert(crate::search::search_description(declaration, entries.push(entry)) =~= own
        + ". Available catalog entries: "@ + (before + "; "@ + crate::search::entry_text(entry))
        + "."@);
    if entries.len() >= 2 {
        assert(crate::search::search_description(declaration, entries) =~= own
            + ". Available catalog entries: "@ + before + "."@);
        assert(crate::search::search_description(declaration, entries).drop_last() =~= own
            + ". Available catalog entries: "@ + before);
        assert(crate::search::search_description(declaration, entries.push(entry)) =~=
            crate::search::search_description(declaration, entries).drop_last() + "; "@
            + crate::search::entry_text(entry) + "."@);
    } else {
        assert(crate::search::entry_texts(entries) =~= seq![
            crate::search::entry_text(entries[0]),
        ]);
        assert(crate::search::search_description(declaration, entries.push(entry)) =~= own
            + ". Available catalog entries: "@ + crate::search::entry_text(entries[0]) + "; "@
            + crate::search::entry_text(entry) + "."@);
    }
}

/// The function that stands for the search has its reserved name, the declared parameters, and a
/// description that tells of the catalog.
pub proof fn search_functions_are_as_declared(
    declaration: ToolSearchToolParamView,
    entries: Seq<CatalogEntryView>,
)
    ensures
        ({
            let function = crate::search::search_function(declaration, entries);
            &&& function.name == "tool_search"@
            &&& function.type_ == "function"@
            &&& function.strict == Some(true)
            &&& function.parameters == Some(JsonView::Object(declaration.parameters))
            &&& function.description == Some(
                crate::search::search_description(declaration, entries),
            )
        }),
{
}

/// What the model is shown of two lists of declarations, one behind the other, is what it is
/// shown of each, in that order.
pub proof fn shown_tools_keep_the_order(
    first: Seq<ResponsesToolView>,
    second: Seq<ResponsesToolView>,
    definitions: Seq<DefinitionRecordView>,
    synthetic: Option<FunctionToolView>,
)
    ensures
        crate::search::private_tools(first + second, definitions, synthetic)
            == crate::search::private_tools(first, definitions, synthetic)
            + crate::search::private_tools(second, definitions, synthetic),
        crate::search::private_tools(second, definitions, synthetic).len() <= second.len(),
    decreases second.len(),
{
    let a = crate::search::private_tools(first, definitions, synthetic);
    if second.len() == 0 {
        assert(first + second =~= first);
        assert(a + crate::search::private_tools(second, definitions, synthetic) =~= a);
    } else {
        let rest = second.drop_last();
        shown_tools_keep_the_order(first, rest, definitions, synthetic);
        assert((first + second).drop_last() =~= first + rest);
        assert((first + second).last() == second.last());
        assert(crate::search::private_tools(first + second, definitions, synthetic) =~= a
            + crate::search::private_tools(second, definitions, synthetic));
    }
}

proof fn shown_tool_is_there(
    tools: Seq<ResponsesToolView>,
    definitions: Seq<DefinitionRecordView>,
    synthetic: Option<FunctionToolView>,
    p: int,
)
    requires
        0 <= p < tools.len(),
    ensures
        crate::search::private_tool(tools[p], definitions, synthetic) matches Some(tool)
            ==> crate::search::private_tools(tools, definitions, synthetic).contains(tool),
    decreases tools.len(),
{
    let rest = crate::search::private_tools(tools.drop_last(), definitions, synthetic);
    let whole = crate::search::private_tools(tools, definitions, synthetic);
    if let Some(tool) = crate::search::private_tool(tools[p], definitions, synthetic) {
        if p == tools.len() - 1 {
            assert(whole[whole.len() - 1] == tool);
        } else {
            shown_tool_is_there(tools.drop_last(), definitions, synthetic, p);
            assert(tools.drop_last()[p] == tools[p]);
            let k = rest.index_of(tool);
            assert(whole[k] == rest[k]);
        }
    }
}

/// Whether a search has nothing to do with a kind of declaration.
pub open spec fn is_no_concern_of_search(tool: ResponsesToolView) -> bool {
    !(tool is Function || tool is Namespace || tool is Mcp || tool is ToolSearch)
}

/// The model is shown every function and server that is loaded or was not deferred, with nothing
/// changed but that it is no longer deferred; every declaration that no search concerns, as it
/// is; and for the declaration of the search the function that stands for it.
pub proof fn available_tools_are_shown(
    tools: Seq<ResponsesToolView>,
    definitions: Seq<DefinitionRecordView>,
    synthetic: Option<FunctionToolView>,
    p: int,
    at: int,
)
    requires
        0 <= p < tools.len(),
    ensures
        ({
            let shown = crate::search::private_tools(tools, definitions, synthetic);
            match tools[p] {
                ResponsesToolView::Function(f) => is_known_at(tools[p], definitions, at) && (
                definitions[at].loaded || f.defer_loading != Some(true)) ==> shown.contains(
                    ResponsesToolView::Function(FunctionToolParamView { defer_loading: None, ..f }),
                ),
                ResponsesToolView::Mcp(m) => is_known_at(tools[p], definitions, at) && (
                definitions[at].loaded || m.defer_loading != Some(true)) ==> shown.contains(
                    ResponsesToolView::Mcp(McpToolParamView { defer_loading: None, ..m }),
                ),
                ResponsesToolView::ToolSearch(_) => synthetic matches Some(s) ==> exists|k: int|
                    0 <= k < shown.len() && (#[trigger] shown[k] matches ResponsesToolView::Function(f)
                        && f.name == s.name && f.description == s.description && f.parameters
                        == s.parameters && f.strict == s.strict && f.defer_loading is None),
                ResponsesToolView::Namespace(_) => true,
                other => shown.contains(other),
            }
        }),
{
    shown_tool_is_there(tools, definitions, synthetic, p);
    if is_known_at(tools[p], definitions, at) {
        known_has_record(tools[p], definitions, at);
    }
    let shown = crate::search::private_tools(tools, definitions, synthetic);
    if tools[p] is ToolSearch && synthetic is Some {
        let tool = crate::search::private_tool(tools[p], definitions, synthetic)->0;
        let k = shown.index_of(tool);
        assert(shown[k] == tool);
    }
}

/// Whether a member's record says that it is loaded; the first of its name counts.
pub open spec fn is_member_loaded(
    records: Seq<NamespaceMemberRecordView>,
    name: Seq<char>,
) -> bool {
    exists|k: int| #[trigger]
        is_first_member(records, name, k) && records[k].loaded
}

/// Whether the record at a place is the first of a member's name.
pub open spec fn is_first_member(
    records: Seq<NamespaceMemberRecordView>,
    name: Seq<char>,
    k: int,
) -> bool {
    &&& 0 <= k < records.len()
    &&& records[k].name == name
    &&& forall|j: int| 0 <= j < k ==> (#[trigger] records[j]).name != name
}

proof fn first_member_is_found(
    records: Seq<NamespaceMemberRecordView>,
    name: Seq<char>,
    i: int,
)
    requires
        0 <= i <= records.len(),
        forall|j: int| 0 <= j < i ==> (#[trigger] records[j]).name != name,
    ensures
        crate::definitions::find_member(records, name, i) matches Some(k) ==> is_first_member(
            records,
            name,
            k,
        ),
        forall|k: int| #[trigger]
            is_first_member(records, name, k) ==> crate::definitions::find_member(
                records,
                name,
                i,
            ) == Some(k),
    decreases records.len() - i,
{
    if i < records.len() && records[i].name != name {
        first_member_is_found(records, name, i + 1);
    }
}

/// Whether a member that is loaded is among those shown, no longer deferred.
pub open spec fn is_shown_if_loaded(
    member: CodexNamespaceMemberView,
    records: Seq<NamespaceMemberRecordView>,
    shown: Seq<CodexNamespaceMemberView>,
) -> bool {
    match member {
        CodexNamespaceMemberView::Function(f) => is_member_loaded(records, f.name)
            ==> shown.contains(
            CodexNamespaceMemberView::Function(FunctionToolParamView { defer_loading: None, ..f }),
        ),
        CodexNamespaceMemberView::Unknown => true,
    }
}

/// Of the members of a namespace the model is shown each loaded function, no longer deferred,
/// and no function that is not loaded.
pub proof fn loaded_members_are_shown(
    members: Seq<CodexNamespaceMemberView>,
    records: Seq<NamespaceMemberRecordView>,
)
    ensures
        forall|i: int|
            0 <= i < members.len() ==> is_shown_if_loaded(
                #[trigger] members[i],
                records,
                crate::search::private_members(members, records),
            ),
        forall|k: int|
            0 <= k < crate::search::private_members(members, records).len() ==> (
            #[trigger] crate::search::private_members(members, records)[k] matches CodexNamespaceMemberView::Function(f)
                ==> is_member_loaded(records, f.name) && f.defer_loading is None),
        crate::search::private_members(members, records).len() <= members.len(),
    decreases members.len(),
{
    if members.len() > 0 {
        let rest = members.drop_last();
        loaded_members_are_shown(rest, records);
        let before = crate::search::private_members(rest, records);
        let whole = crate::search::private_members(members, records);
        if let CodexNamespaceMemberView::Function(f) = members.last() {
            first_member_is_found(records, f.name, 0);
            if let Some(k) = crate::definitions::find_member(records, f.name, 0) {
                assert(is_first_member(records, f.name, k));
            }
        }
        assert forall|i: int| 0 <= i < members.len() implies is_shown_if_loaded(
            #[trigger] members[i],
            records,
            whole,
        ) by {
            if let CodexNamespaceMemberView::Function(f) = members[i] {
                if is_member_loaded(records, f.name) {
                    let shown = CodexNamespaceMemberView::Function(
                        FunctionToolParamView { defer_loading: None, ..f },
                    );
                    if i < rest.len() {
                        assert(rest[i] == members[i]);
                        let k = before.index_of(shown);
                        assert(whole[k] == before[k]);
                    } else {
                        assert(whole[whole.len() - 1] == shown);
                    }
                }
            }
        }
        assert forall|k: int| 0 <= k < whole.len() implies (#[trigger] whole[k] matches CodexNamespaceMemberView::Function(f)
            ==> is_member_loaded(records, f.name) && f.defer_loading is None) by {
            if k < before.len() {
                assert(whole[k] == before[k]);
            }
        }
    }
}

/// A namespace with a member to show is shown with those members, and with none it is not shown;
/// its name and its description stay.
pub proof fn namespaces_are_shown_with_their_loaded_members(
    tool: ResponsesToolView,
    definitions: Seq<DefinitionRecordView>,
    synthetic: Option<FunctionToolView>,
    at: int,
)
    requires
        is_known_at(tool, definitions, at),
        tool is Namespace,
        definitions[at].members is Some,
    ensures
        ({
            let n = tool->Namespace_0;
            let members = crate::search::private_members(n.tools, definitions[at].members->0);
            crate::search::private_tools(seq![tool], definitions, synthetic) == if members.len()
                == 0 {
                Seq::empty()
            } else {
                seq![
                    ResponsesToolView::Namespace(
                        CodexNamespaceToolParamView { tools: members, ..n },
                    ),
                ]
            }
        }),
{
    known_has_record(tool, definitions, at);
    let one = seq![tool];
    assert(one.drop_last() =~= Seq::empty());
    assert(crate::search::private_tools(one.drop_last(), definitions, synthetic) =~= Seq::empty());
    let n = tool->Namespace_0;
    let members = crate::search::private_members(n.tools, definitions[at].members->0);
    if members.len() > 0 {
        let shown = ResponsesToolView::Namespace(
            CodexNamespaceToolParamView { tools: members, ..n },
        );
        assert(Seq::<ResponsesToolView>::empty().push(shown) =~= seq![shown]);
    }
}

/// Names are withheld at first where, and only where, the function or the member was declared
/// deferred.
pub proof fn deferred_names_are_withheld(tools: Seq<ResponsesToolView>, name: Seq<char>)
    ensures
        crate::definitions::initially_withheld(tools).contains(name) <==> exists|p: int|
            0 <= p < tools.len() && defers(#[trigger] tools[p], name),
    decreases tools.len(),
{
    if tools.len() > 0 {
        let rest = tools.drop_last();
        deferred_names_are_withheld(rest, name);
        if let ResponsesToolView::Namespace(n) = tools.last() {
            deferred_members_are_withheld(n.name, n.tools, name);
        }
        if exists|p: int| 0 <= p < rest.len() && defers(#[trigger] rest[p], name) {
            let p = choose|p: int| 0 <= p < rest.len() && defers(#[trigger] rest[p], name);
            assert(tools[p] == rest[p]);
        }
        if exists|p: int| 0 <= p < tools.len() && defers(#[trigger] tools[p], name) {
            let p = choose|p: int| 0 <= p < tools.len() && defers(#[trigger] tools[p], name);
            if p < rest.len() {
                assert(rest[p] == tools[p]);
            }
        }
        if defers(tools.last(), name) {
            assert(defers(tools[tools.len() - 1], name));
        }
    }
}

/// Whether a declaration defers the function that the model would know by a name.
pub open spec fn defers(tool: ResponsesToolView, name: Seq<char>) -> bool {
    match tool {
        ResponsesToolView::Function(f) => f.defer_loading == Some(true) && f.name == name,
        ResponsesToolView::Namespace(n) => exists|q: int|
            0 <= q < n.tools.len() && defers_member(n.name, #[trigger] n.tools[q], name),
        _ => false,
    }
}

/// Whether a member is deferred that the model would know by a name.
pub open spec fn defers_member(
    namespace: Seq<char>,
    member: CodexNamespaceMemberView,
    name: Seq<char>,
) -> bool {
    member matches CodexNamespaceMemberView::Function(f) && f.defer_loading == Some(true)
        && crate::names::member_name(namespace, f.name) == name
}

proof fn deferred_members_are_withheld(
    namespace: Seq<char>,
    members: Seq<CodexNamespaceMemberView>,
    name: Seq<char>,
)
    ensures
        crate::definitions::withheld_members(namespace, members).contains(name) <==> exists|q: int|
            0 <= q < members.len() && defers_member(namespace, #[trigger] members[q], name),
    decreases members.len(),
{
    if members.len() > 0 {
        let rest = members.drop_last();
        deferred_members_are_withheld(namespace, rest, name);
        if exists|q: int| 0 <= q < rest.len() && defers_member(namespace, #[trigger] rest[q], name) {
            let q = choose|q: int|
                0 <= q < rest.len() && defers_member(namespace, #[trigger] rest[q], name);
            assert(members[q] == rest[q]);
        }
        if exists|q: int|
            0 <= q < members.len() && defers_member(namespace, #[trigger] members[q], name) {
            let q = choose|q: int|
                0 <= q < members.len() && defers_member(namespace, #[trigger] members[q], name);
            if q < rest.len() {
                assert(rest[q] == members[q]);
            }
        }
        if defers_member(namespace, members.last(), name) {
            assert(defers_member(namespace, members[members.len() - 1], name));
        }
    }
}

/// A request that was prepared for searching shows the client all of its tools, those that were
/// loaded among them, and carries over what is loaded, what is withheld and where. Where no tools
/// were declared and none are known, none are shown.
pub proof fn prepared_requests_show_their_tools(
    tools_were_present: bool,
    declaration: Option<ToolSearchToolParamView>,
    defs: crate::definitions::DefinitionsView,
    input: ResponsesInputView,
)
    ensures
        ({
            let prepared = crate::search::finished_state(
                tools_were_present,
                declaration,
                defs,
                input,
            );
            let state = prepared->Ok_0;
            &&& prepared is Err <==> crate::names::take_names(
                crate::names::declared_names(defs.public_tools),
            ) is Err
            &&& prepared is Ok ==> {
                &&& state.active
                &&& state.public_effective_tools is None <==> !tools_were_present
                    && defs.public_tools.len() == 0
                &&& state.public_effective_tools is Some ==> state.public_effective_tools->0
                    == defs.public_tools
                &&& tools_were_present ==> state.private_upstream_tools is Some
                &&& state.private_upstream_input == Some(input)
                &&& state.loaded_public_tools == defs.loaded_public_tools
                &&& state.withheld_function_names == defs.withheld_function_names
                &&& state.mcp_load_positions == defs.mcp_load_positions
                &&& state.unqualified_call_positions == defs.unqualified_call_positions
                &&& state.synthetic_function is Some <==> declaration is Some
            }
        }),
{
}

} // verus!
