//! What a model server is sent for a request: the choice of tools, the functions and the input.
use vstd::prelude::*;

#[allow(unused_imports)]
use crate::codex::NamespaceMemberView;
#[allow(unused_imports)]
use crate::error::ToolErrorView;
#[allow(unused_imports)]
use crate::items::{
    InputFunctionToolCallView, InputItemView, InputMessageContentView, ResponsesInputView,
};
#[allow(unused_imports)]
use crate::json::JsonView;
#[allow(unused_imports)]
use crate::payload::{RequestPayloadView, UpstreamRequestView, UpstreamToolView};
#[allow(unused_imports)]
use crate::readiness::ToolSearchReadiness;
#[allow(unused_imports)]
use crate::tools::{
    CodexNamespaceMemberView, CodexNamespaceToolParamView, FunctionToolParamView, FunctionToolView,
    ResponsesToolView, ToolChoiceView,
};

verus! {

/// The declarations of a request; none where it gives no list.
pub open spec fn tools_of(r: RequestPayloadView) -> Seq<ResponsesToolView> {
    match r.tools {
        Some(tools) => tools,
        None => Seq::empty(),
    }
}

/// Whether a member of a namespace is declared at a place within a place.
pub open spec fn is_member_at(
    tools: Seq<ResponsesToolView>,
    namespace: Seq<char>,
    name: Seq<char>,
    p: int,
    q: int,
) -> bool {
    &&& 0 <= p < tools.len()
    &&& tools[p] matches ResponsesToolView::Namespace(n) && n.name == namespace && 0 <= q
        < n.tools.len() && (n.tools[q] matches CodexNamespaceMemberView::Function(f) && f.name
        == name)
}

/// Whether a member of a namespace is declared.
pub open spec fn declares_member(
    tools: Seq<ResponsesToolView>,
    namespace: Seq<char>,
    name: Seq<char>,
) -> bool {
    exists|p: int, q: int| #[trigger] is_member_at(tools, namespace, name, p, q)
}

proof fn known_members_are_declared(tools: Seq<ResponsesToolView>, flat: Seq<char>, n: int)
    requires
        0 <= n <= tools.len(),
        crate::codex::namespaces_known(tools, n).contains_key(flat),
    ensures
        declares_member(
            tools,
            crate::codex::namespaces_known(tools, n)[flat].namespace,
            crate::codex::namespaces_known(tools, n)[flat].name,
        ),
    decreases n,
{
    if n > 0 {
        let before = crate::codex::namespaces_known(tools, n - 1);
        if let ResponsesToolView::Namespace(s) = tools[n - 1] {
            if before.contains_key(flat) {
                known_members_are_declared(tools, flat, n - 1);
            }
            more_members_are_declared(tools, n - 1, before, flat, s.tools.len() as int);
        } else {
            known_members_are_declared(tools, flat, n - 1);
        }
    }
}

proof fn more_members_are_declared(
    tools: Seq<ResponsesToolView>,
    p: int,
    known: Map<Seq<char>, NamespaceMemberView>,
    flat: Seq<char>,
    n: int,
)
    requires
        0 <= p < tools.len(),
        tools[p] matches ResponsesToolView::Namespace(s) && 0 <= n <= s.tools.len(),
        known.contains_key(flat) ==> declares_member(tools, known[flat].namespace, known[flat].name),
    ensures
        ({
            let s = tools[p]->Namespace_0;
            let after = crate::codex::members_known(known, s.name, s.tools, n);
            after.contains_key(flat) ==> declares_member(
                tools,
                after[flat].namespace,
                after[flat].name,
            )
        }),
    decreases n,
{
    if n > 0 {
        more_members_are_declared(tools, p, known, flat, n - 1);
        let s = tools[p]->Namespace_0;
        if let CodexNamespaceMemberView::Function(f) = s.tools[n - 1] {
            assert(is_member_at(tools, s.name, f.name, p, n - 1));
        }
    }
}

proof fn members_have_flat_names(r: RequestPayloadView, namespace: Seq<char>, name: Seq<char>)
    requires
        crate::codex::namespace_map_of(r.tools) is Ok,
    ensures
        ({
            let map = crate::codex::namespace_map_of(r.tools)->Ok_0;
            crate::codex::known_flat_name(map, Some(namespace), name) == if declares_member(
                tools_of(r),
                namespace,
                name,
            ) {
                Some(crate::names::member_name(namespace, name))
            } else {
                None
            }
        }),
{
    let tools = tools_of(r);
    let map = crate::codex::namespace_map_of(r.tools)->Ok_0;
    let flat = crate::names::member_name(namespace, name);
    if declares_member(tools, namespace, name) {
        let (p, q) = choose|p: int, q: int| #[trigger] is_member_at(tools, namespace, name, p, q);
        crate::codex::known_by_flat_name(tools, p, q, tools.len() as int);
        assert(crate::codex::is_known_as(
            crate::codex::namespaces_known(tools, tools.len() as int),
            tools[p]->Namespace_0,
            q,
        ));
    } else if let Some(known) = map {
        if known.contains_key(flat) {
            known_members_are_declared(tools, flat, tools.len() as int);
        }
    }
}

/// The client's choice of tools is the model's: each choice that is not of a function is sent as
/// it was made, and where none was made the model may choose. A choice of a function stays a
/// choice of that function, under the name that the model knows it by: its own, or the flat name
/// where it is a member of a namespace.
pub proof fn choices_are_passed_on(r: RequestPayloadView, stream: bool)
    requires
        crate::convert::upstream_of(r, stream) is Ok,
    ensures
        crate::convert::upstream_of(r, stream)->Ok_0.tool_choice == Some(
            match r.tool_choice {
                None => ToolChoiceView::Auto,
                Some(ToolChoiceView::Auto) => ToolChoiceView::Auto,
                Some(ToolChoiceView::Never) => ToolChoiceView::Never,
                Some(ToolChoiceView::Required) => ToolChoiceView::Required,
                Some(ToolChoiceView::Other(value)) => ToolChoiceView::Other(value),
                Some(ToolChoiceView::Custom { name }) => ToolChoiceView::Custom { name },
                Some(ToolChoiceView::AllowedTools { mode, tools }) => ToolChoiceView::AllowedTools {
                    mode,
                    tools,
                },
                Some(ToolChoiceView::Function { namespace: Some(namespace), name }) =>
                if declares_member(tools_of(r), namespace, name) {
                    ToolChoiceView::Function {
                        namespace: None,
                        name: crate::names::member_name(namespace, name),
                    }
                } else {
                    ToolChoiceView::Function { namespace: Some(namespace), name }
                },
                Some(ToolChoiceView::Function { namespace: None, name }) =>
                ToolChoiceView::Function { namespace: None, name },
            },
        ),
{
    if let Some(ToolChoiceView::Function { namespace: Some(namespace), name }) = r.tool_choice {
        members_have_flat_names(r, namespace, name);
    }
}

/// Whether a custom tool of a name is declared.
pub open spec fn has_custom(tools: Seq<ResponsesToolView>, name: Seq<char>) -> bool {
    exists|i: int|
        0 <= i < tools.len() && (#[trigger] tools[i] matches ResponsesToolView::Custom(c) && c.name
            == name)
}

proof fn custom_is_declared(tools: Seq<ResponsesToolView>, name: Seq<char>)
    ensures
        crate::convert::declares_custom(tools, name) == has_custom(tools, name),
{
    if has_custom(tools, name) {
        let i = choose|i: int|
            0 <= i < tools.len() && (#[trigger] tools[i] matches ResponsesToolView::Custom(c)
                && c.name == name);
        assert(crate::convert::is_custom_named(tools[i], name));
    }
    if crate::convert::declares_custom(tools, name) {
        let i = choose|i: int|
            0 <= i < tools.len() && crate::convert::is_custom_named(#[trigger] tools[i], name);
        assert(tools[i] is Custom);
    }
}

proof fn allowed_customs_are_declared(
    tools: Seq<ResponsesToolView>,
    allowed: Seq<crate::tools::AllowedToolView>,
    i: int,
)
    requires
        0 <= i <= allowed.len(),
    ensures
        crate::convert::allowed_valid(tools, allowed, i) is Ok <==> forall|k: int|
            i <= k < allowed.len() && (#[trigger] allowed[k]).type_ == "custom"@ ==> has_custom(
                tools,
                allowed[k].name,
            ),
    decreases allowed.len() - i,
{
    if i < allowed.len() {
        custom_is_declared(tools, allowed[i].name);
        allowed_customs_are_declared(tools, allowed, i + 1);
    }
}

/// A choice of a custom tool is refused unless the tool is declared.
pub proof fn chosen_custom_tools_are_declared(r: RequestPayloadView, stream: bool)
    requires
        crate::convert::upstream_of(r, stream) is Ok,
    ensures
        r.tool_choice matches Some(ToolChoiceView::Custom { name }) ==> has_custom(
            tools_of(r),
            name,
        ),
        r.tool_choice matches Some(ToolChoiceView::AllowedTools { mode, tools }) ==> forall|k: int|
            0 <= k < tools.len() && (#[trigger] tools[k]).type_ == "custom"@ ==> has_custom(
                tools_of(r),
                tools[k].name,
            ),
{
    match r.tool_choice {
        Some(ToolChoiceView::Custom { name }) => {
            custom_is_declared(tools_of(r), name);
        },
        Some(ToolChoiceView::AllowedTools { mode, tools }) => {
            allowed_customs_are_declared(tools_of(r), tools, 0);
        },
        _ => {},
    }
}

/// The functions that a model server is sent for declarations.
pub open spec fn sent_functions(tools: Seq<ResponsesToolView>) -> Seq<UpstreamToolView> {
    match crate::convert::shown_tools(tools) {
        Some(functions) => functions,
        None => Seq::empty(),
    }
}

proof fn functions_go_on(
    first: Seq<ResponsesToolView>,
    second: Seq<ResponsesToolView>,
    n: int,
)
    requires
        0 <= n <= second.len(),
    ensures
        crate::convert::upstream_functions(first + second, first.len() + n)
            == crate::convert::upstream_functions(first, first.len() as int)
            + crate::convert::upstream_functions(second, n),
    decreases n,
{
    let a = crate::convert::upstream_functions(first, first.len() as int);
    if n == 0 {
        same_functions(first + second, first, first.len() as int);
        assert(a + crate::convert::upstream_functions(second, 0) =~= a);
    } else {
        functions_go_on(first, second, n - 1);
        assert((first + second)[first.len() + n - 1] == second[n - 1]);
        assert(crate::convert::upstream_functions(first + second, first.len() + n) =~= a
            + crate::convert::upstream_functions(second, n));
    }
}

proof fn same_functions(a: Seq<ResponsesToolView>, b: Seq<ResponsesToolView>, n: int)
    requires
        0 <= n <= a.len(),
        n <= b.len(),
        forall|i: int| 0 <= i < n ==> a[i] == b[i],
    ensures
        crate::convert::upstream_functions(a, n) == crate::convert::upstream_functions(b, n),
    decreases n,
{
    if n > 0 {
        same_functions(a, b, n - 1);
    }
}

/// The functions of declarations that stand one behind the other are those of each, in that
/// order.
pub proof fn functions_keep_the_order(
    first: Seq<ResponsesToolView>,
    second: Seq<ResponsesToolView>,
)
    ensures
        sent_functions(first + second) == sent_functions(first) + sent_functions(second),
{
    let a = crate::codex::renamed_tools(first);
    let b = crate::codex::renamed_tools(second);
    assert(crate::codex::renamed_tools(first + second) =~= a + b);
    functions_go_on(a, b, b.len() as int);
    assert(sent_functions(first) =~= crate::convert::upstream_functions(a, a.len() as int));
    assert(sent_functions(second) =~= crate::convert::upstream_functions(b, b.len() as int));
    assert(sent_functions(first + second) =~= crate::convert::upstream_functions(
        a + b,
        (a + b).len() as int,
    ));
}

/// The functions that the model is sent for a request are those of its declarations, and there is
/// no list where there are none.
pub proof fn declared_functions_are_sent(r: RequestPayloadView, stream: bool)
    requires
        crate::convert::upstream_of(r, stream) is Ok,
    ensures
        crate::convert::upstream_of(r, stream)->Ok_0.tools == if sent_functions(tools_of(r)).len()
            == 0 {
            None
        } else {
            Some(sent_functions(tools_of(r)))
        },
{
}

proof fn single_functions(tool: ResponsesToolView)
    ensures
        ({
            let renamed = crate::codex::renamed_tool(tool);
            let functions = match renamed {
                ResponsesToolView::Custom(c) => seq![crate::custom::custom_function(c)],
                other => crate::normalize::tool_functions(other),
            };
            &&& sent_functions(seq![tool]).len() == functions.len()
            &&& forall|i: int|
                0 <= i < functions.len() ==> #[trigger] sent_functions(seq![tool])[i]
                    == UpstreamToolView::Function(functions[i])
        }),
{
    let renamed = crate::codex::renamed_tools(seq![tool]);
    assert(renamed =~= seq![crate::codex::renamed_tool(tool)]);
    assert(crate::convert::upstream_functions(renamed, 0) =~= Seq::empty());
    reveal_with_fuel(crate::convert::upstream_functions, 2);
}

/// A declared function is sent as one function, with the name, the description, the parameters
/// and the strictness that were declared.
pub proof fn functions_are_sent_as_declared(f: FunctionToolParamView)
    ensures
        ({
            let sent = sent_functions(seq![ResponsesToolView::Function(f)]);
            &&& sent.len() == 1
            &&& sent[0] == UpstreamToolView::Function(
                FunctionToolView {
                    type_: "function"@,
                    name: f.name,
                    description: f.description,
                    parameters: f.parameters,
                    strict: f.strict,
                },
            )
        }),
{
    single_functions(ResponsesToolView::Function(f));
}

proof fn member_functions_are_there(members: Seq<CodexNamespaceMemberView>, q: int, n: int)
    requires
        0 <= q < n <= members.len(),
        members[q] is Function,
    ensures
        crate::codex::member_functions(members, n).contains(
            crate::normalize::param_function(members[q]->Function_0),
        ),
    decreases n,
{
    let whole = crate::codex::member_functions(members, n);
    let function = crate::normalize::param_function(members[q]->Function_0);
    if q == n - 1 {
        assert(whole[whole.len() - 1] == function);
    } else {
        member_functions_are_there(members, q, n - 1);
        let before = crate::codex::member_functions(members, n - 1);
        let k = before.index_of(function);
        assert(whole[k] == before[k]);
    }
}

proof fn member_functions_are_members(members: Seq<CodexNamespaceMemberView>, k: int, n: int)
    requires
        0 <= n <= members.len(),
        0 <= k < crate::codex::member_functions(members, n).len(),
    ensures
        exists|q: int|
            0 <= q < n && (#[trigger] members[q] matches CodexNamespaceMemberView::Function(f)
                && crate::codex::member_functions(members, n)[k] == crate::normalize::param_function(
                f,
            )),
        crate::codex::member_functions(members, n).len() <= n,
    decreases n,
{
    if n > 0 {
        let before = crate::codex::member_functions(members, n - 1);
        let whole = crate::codex::member_functions(members, n);
        if before.len() > 0 {
            member_functions_are_members(members, 0, n - 1);
        }
        if k < before.len() {
            member_functions_are_members(members, k, n - 1);
        } else {
            assert(members[n - 1] is Function);
        }
    }
}

/// Each function of a namespace is sent under its flat name, with what was declared of it, and
/// nothing else is sent for the namespace.
pub proof fn members_are_sent_under_flat_names(n: CodexNamespaceToolParamView, q: int)
    requires
        0 <= q < n.tools.len(),
        n.tools[q] is Function,
    ensures
        ({
            let f = n.tools[q]->Function_0;
            let sent = sent_functions(seq![ResponsesToolView::Namespace(n)]);
            &&& sent.contains(
                UpstreamToolView::Function(
                    FunctionToolView {
                        type_: "function"@,
                        name: crate::names::member_name(n.name, f.name),
                        description: f.description,
                        parameters: f.parameters,
                        strict: f.strict,
                    },
                ),
            )
            &&& sent.len() <= n.tools.len()
        }),
{
    let tool = ResponsesToolView::Namespace(n);
    single_functions(tool);
    let renamed = crate::codex::renamed_tool(tool)->Namespace_0.tools;
    member_functions_are_there(renamed, q, renamed.len() as int);
    let functions = crate::codex::member_functions(renamed, renamed.len() as int);
    let function = crate::normalize::param_function(renamed[q]->Function_0);
    let k = functions.index_of(function);
    member_functions_are_members(renamed, k, renamed.len() as int);
    assert(sent_functions(seq![tool])[k] == UpstreamToolView::Function(function));
}

/// What a discovered MCP tool is sent as: a function under its internal name, with its
/// description and its schema.
pub proof fn discovered_tools_are_sent(m: crate::tools::McpToolParamView)
    ensures
        ({
            let sent = sent_functions(seq![ResponsesToolView::Mcp(m)]);
            &&& sent.len() == m.discovered_tools.len()
            &&& forall|i: int|
                0 <= i < sent.len() ==> (#[trigger] sent[i] matches UpstreamToolView::Function(f)
                    && f.type_ == "function"@ && f.name == m.discovered_tools[i].internal_name
                    && f.description == m.discovered_tools[i].tool.description && (
                f.parameters matches Some(JsonView::Object(schema)) && (forall|key: Seq<char>|
                    key != "properties"@ ==> (#[trigger] schema.contains_key(key)
                        == m.discovered_tools[i].tool.input_schema.contains_key(key)) && (
                    schema.contains_key(key) ==> schema[key]
                        == m.discovered_tools[i].tool.input_schema[key])) && schema.contains_key(
                    "properties"@,
                )))
        }),
{
    single_functions(ResponsesToolView::Mcp(m));
    let sent = sent_functions(seq![ResponsesToolView::Mcp(m)]);
    let functions = crate::normalize::discovered_functions(m.discovered_tools);
    assert(crate::normalize::tool_functions(ResponsesToolView::Mcp(m)) == functions);
    assert forall|i: int| 0 <= i < sent.len() implies #[trigger] sent[i]
        == UpstreamToolView::Function(
        crate::normalize::mcp_function(
            m.discovered_tools[i].internal_name,
            m.discovered_tools[i].tool,
        ),
    ) by {
        assert(sent[i] == UpstreamToolView::Function(functions[i]));
    }
}

/// A custom tool is sent as one strict function of its name, whose only parameter is a text that
/// must be there; a web search as one function; and what the gateway does not know, or has no
/// handler for, as none.
pub proof fn other_tools_are_sent(tool: ResponsesToolView)
    ensures
        tool matches ResponsesToolView::Custom(c) ==> {
            let sent = sent_functions(seq![tool]);
            &&& sent.len() == 1
            &&& sent[0] matches UpstreamToolView::Function(f) && f.name == c.name && f.type_
                == "function"@ && f.strict == Some(true) && f.description is Some && (
            f.parameters matches Some(schema) && crate::json::field(schema, "type"@) == Some(
                JsonView::Text("object"@),
            ) && crate::json::field(schema, "required"@) == Some(
                JsonView::Array(seq![JsonView::Text("input"@)]),
            ) && crate::json::field(schema, "additionalProperties"@) == Some(JsonView::Bool(false))
                && (crate::json::field(schema, "properties"@) matches Some(properties) && (
            crate::json::field(properties, "input"@) matches Some(input) && crate::json::field(
                input,
                "type"@,
            ) == Some(JsonView::Text("string"@)))))
        },
        tool is WebSearch ==> {
            let sent = sent_functions(seq![tool]);
            &&& sent.len() == 1
            &&& sent[0] matches UpstreamToolView::Function(f) && f.name == "web_search"@
        },
        tool is FileSearch || tool is CodeInterpreter || tool is Unknown ==> sent_functions(
            seq![tool],
        ).len() == 0,
{
    single_functions(tool);
    schema_keys_differ();
}

proof fn schema_keys_differ()
    ensures
        "type"@ != "properties"@,
        "type"@ != "required"@,
        "type"@ != "additionalProperties"@,
        "type"@ != "description"@,
        "properties"@ != "required"@,
        "properties"@ != "additionalProperties"@,
        "required"@ != "additionalProperties"@,
{
    reveal_strlit("type");
    reveal_strlit("properties");
    reveal_strlit("required");
    reveal_strlit("additionalProperties");
    reveal_strlit("description");
    assert("type"@.len() == 4);
    assert("properties"@.len() == 10);
    assert("required"@.len() == 8);
    assert("additionalProperties"@.len() == 20);
    assert("description"@.len() == 11);
}

/// The items that an input is shown as.
pub open spec fn items_shown(items: Seq<InputItemView>) -> Seq<InputItemView> {
    match crate::convert::shown_input(ResponsesInputView::Items(items)) {
        ResponsesInputView::Items(shown) => shown,
        ResponsesInputView::Text(_) => Seq::empty(),
    }
}

proof fn stored_goes_on(first: Seq<InputItemView>, second: Seq<InputItemView>, n: int)
    requires
        0 <= n <= second.len(),
    ensures
        crate::convert::stored_items(first + second, first.len() + n)
            == crate::convert::stored_items(first, first.len() as int)
            + crate::convert::stored_items(second, n),
    decreases n,
{
    let a = crate::convert::stored_items(first, first.len() as int);
    if n == 0 {
        same_stored(first + second, first, first.len() as int);
        assert(a + crate::convert::stored_items(second, 0) =~= a);
    } else {
        stored_goes_on(first, second, n - 1);
        assert((first + second)[first.len() + n - 1] == second[n - 1]);
        assert(crate::convert::stored_items(first + second, first.len() + n) =~= a
            + crate::convert::stored_items(second, n));
    }
}

proof fn same_stored(a: Seq<InputItemView>, b: Seq<InputItemView>, n: int)
    requires
        0 <= n <= a.len(),
        n <= b.len(),
        forall|i: int| 0 <= i < n ==> a[i] == b[i],
    ensures
        crate::convert::stored_items(a, n) == crate::convert::stored_items(b, n),
    decreases n,
{
    if n > 0 {
        same_stored(a, b, n - 1);
    }
}

/// The history is shown item by item, in its order. An item of no known kind is left out; a call
/// of a custom tool is shown as one of a function with the same identities, and its output as
/// that call's; every other item is shown as it is.
pub proof fn items_are_shown_one_by_one(
    first: Seq<InputItemView>,
    second: Seq<InputItemView>,
    item: InputItemView,
)
    ensures
        items_shown(first + second) == items_shown(first) + items_shown(second),
        match item {
            InputItemView::Unknown => items_shown(seq![item]).len() == 0,
            InputItemView::CustomToolCall(c) => items_shown(seq![item]).len() == 1 && (
            items_shown(seq![item])[0] matches InputItemView::FunctionCall(f) && f.id == Some(c.id)
                && f.call_id == c.call_id && f.name == c.name && f.namespace is None && f.status
                == c.status && f.arguments == crate::json::json_text(
                JsonView::Object(
                    Map::<Seq<char>, JsonView>::empty().insert("input"@, JsonView::Text(c.input)),
                ),
            )),
            InputItemView::CustomToolCallOutput(o) => items_shown(seq![item]).len() == 1 && (
            items_shown(seq![item])[0] matches InputItemView::FunctionCallOutput(f) && f.call_id
                == o.call_id && f.output == (match o.output {
                JsonView::Text(t) => t,
                value => crate::json::json_text(value),
            })),
            other => items_shown(seq![item]) == seq![item],
        },
{
    stored_goes_on(first, second, second.len() as int);
    let one = seq![item];
    reveal_with_fuel(crate::convert::stored_items, 2);
    assert(crate::convert::stored_items(one, 0) =~= Seq::empty());
    if let Some(stored) = crate::convert::stored_item(item) {
        assert(crate::convert::stored_items(one, 1) =~= seq![stored]);
    } else {
        assert(crate::convert::stored_items(one, 1) =~= Seq::empty());
    }
}

/// The model is sent the input as it is shown, with each call of a declared member under its flat
/// name and nothing else changed; a text is sent as it is.
pub proof fn inputs_are_passed_on(r: RequestPayloadView, stream: bool)
    requires
        crate::convert::upstream_of(r, stream) is Ok,
    ensures
        match r.input {
            ResponsesInputView::Text(t) => crate::convert::upstream_of(r, stream)->Ok_0.input
                == ResponsesInputView::Text(t),
            ResponsesInputView::Items(items) => crate::convert::upstream_of(
                r,
                stream,
            )->Ok_0.input matches ResponsesInputView::Items(sent) && sent.len() == items_shown(
                items,
            ).len() && forall|i: int|
                0 <= i < sent.len() ==> is_sent_for(
                    #[trigger] sent[i],
                    items_shown(items)[i],
                    tools_of(r),
                ),
        },
{
    if let ResponsesInputView::Items(items) = r.input {
        let sent = crate::convert::upstream_of(r, stream)->Ok_0.input->Items_0;
        assert forall|i: int| 0 <= i < sent.len() implies is_sent_for(
            #[trigger] sent[i],
            items_shown(items)[i],
            tools_of(r),
        ) by {
            if let InputItemView::FunctionCall(call) = items_shown(items)[i] {
                if let Some(namespace) = call.namespace {
                    members_have_flat_names(r, namespace, call.name);
                }
            }
        }
    }
}

/// Whether an item is what the model is sent for another: the same, but for the name of a call of
/// a declared member.
pub open spec fn is_sent_for(
    sent: InputItemView,
    item: InputItemView,
    tools: Seq<ResponsesToolView>,
) -> bool {
    match item {
        InputItemView::FunctionCall(call) => match call.namespace {
            Some(namespace) => if declares_member(tools, namespace, call.name) {
                sent == InputItemView::FunctionCall(
                    InputFunctionToolCallView {
                        name: crate::names::member_name(namespace, call.name),
                        namespace: None,
                        ..call
                    },
                )
            } else {
                sent == item
            },
            None => sent == item,
        },
        _ => sent == item,
    }
}

/// Whether a request uses tool search: its history holds an item of a search, or a declaration
/// is of the search or defers something.
pub open spec fn uses_search(tools: Seq<ResponsesToolView>, input: ResponsesInputView) -> bool {
    ||| (input matches ResponsesInputView::Items(items) && exists|i: int|
        0 <= i < items.len() && (#[trigger] items[i] is ToolSearchCall || items[i]
            is ToolSearchOutput))
    ||| exists|p: int|
        0 <= p < tools.len() && (#[trigger] tools[p] is ToolSearch
            || crate::withholding::is_deferred(tools[p]))
}

/// A request needs no preparation where, and only where, it does not use tool search; one that
/// uses it is refused where it asks for parallel calls, and otherwise is never taken for one that
/// does not.
pub proof fn searches_need_preparation(
    tools: Seq<ResponsesToolView>,
    input: ResponsesInputView,
    parallel: Option<bool>,
)
    ensures
        crate::readiness::readiness(tools, input, parallel) == Ok::<_, ToolErrorView>(
            ToolSearchReadiness::Inactive,
        ) <==> !uses_search(tools, input),
        uses_search(tools, input) && parallel == Some(true) ==> crate::readiness::readiness(
            tools,
            input,
            parallel,
        ) is Err,
{
    assert(crate::readiness::search_active(tools, input) == uses_search(tools, input)) by {
        if uses_search(tools, input) {
            if exists|p: int|
                0 <= p < tools.len() && (#[trigger] tools[p] is ToolSearch
                    || crate::withholding::is_deferred(tools[p])) {
                let p = choose|p: int|
                    0 <= p < tools.len() && (#[trigger] tools[p] is ToolSearch
                        || crate::withholding::is_deferred(tools[p]));
                deferring_activates(tools[p]);
                assert(crate::readiness::activates_tool_search(tools[p]));
            } else if let ResponsesInputView::Items(items) = input {
                let i = choose|i: int|
                    0 <= i < items.len() && (#[trigger] items[i] is ToolSearchCall || items[i]
                        is ToolSearchOutput);
                assert(crate::readiness::is_search_item(items[i]));
            }
        }
        if crate::readiness::search_active(tools, input) {
            if exists|p: int|
                0 <= p < tools.len() && crate::readiness::activates_tool_search(
                    #[trigger] tools[p],
                ) {
                let p = choose|p: int|
                    0 <= p < tools.len() && crate::readiness::activates_tool_search(
                        #[trigger] tools[p],
                    );
                deferring_activates(tools[p]);
                assert(tools[p] is ToolSearch || crate::withholding::is_deferred(tools[p]));
            } else if let ResponsesInputView::Items(items) = input {
                let i = choose|i: int|
                    0 <= i < items.len() && crate::readiness::is_search_item(#[trigger] items[i]);
                assert(items[i] is ToolSearchCall || items[i] is ToolSearchOutput);
            }
        }
    }
}

proof fn deferring_activates(tool: ResponsesToolView)
    ensures
        crate::readiness::activates_tool_search(tool) == (tool is ToolSearch
            || crate::withholding::is_deferred(tool)),
{
    if let ResponsesToolView::Namespace(n) = tool {
        if crate::withholding::is_deferred(tool) {
            let q = choose|q: int|
                0 <= q < n.tools.len() && crate::withholding::is_deferred_member(
                    #[trigger] n.tools[q],
                );
            assert(crate::readiness::defers_member(n.tools[q]));
        }
        if crate::readiness::activates_tool_search(tool) {
            let q = choose|q: int|
                0 <= q < n.tools.len() && #[trigger] crate::readiness::defers_member(n.tools[q]);
            assert(crate::withholding::is_deferred_member(n.tools[q]));
        }
    }
}

/// A request that uses tool search is not sent before it was prepared.
pub proof fn searches_are_not_sent_unprepared(r: RequestPayloadView, stream: bool)
    requires
        uses_search(tools_of(r), r.input),
    ensures
        crate::convert::upstream_of(r, stream) is Err,
{
    searches_need_preparation(tools_of(r), r.input, r.parallel_tool_calls);
}

/// A text is kept as the one message of the user that it is, and of a list of items each is kept
/// in turn.
pub proof fn texts_are_kept_as_the_users(text: Seq<char>, items: Seq<InputItemView>)
    ensures
        ({
            let kept = crate::convert::stored_input(ResponsesInputView::Text(text));
            &&& kept.len() == 1
            &&& kept[0] is Message
            &&& kept[0]->Message_0.role == "user"@
            &&& kept[0]->Message_0.content == InputMessageContentView::Text(text)
        }),
        items.len() > 0 && items.last() is Message ==> ({
            let kept = crate::convert::stored_input(ResponsesInputView::Items(items));
            &&& kept.len() > 0
            &&& kept.last() is Message
            &&& kept.last()->Message_0 == items.last()->Message_0
            &&& kept.drop_last() == crate::convert::stored_input(
                ResponsesInputView::Items(items.drop_last()),
            )
        }),
        crate::convert::stored_input(ResponsesInputView::Items(Seq::empty())).len() == 0,
{
    if items.len() > 0 && items.last() is Message {
        let n = items.len() as int;
        same_stored(items, items.drop_last(), n - 1);
        let kept = crate::convert::stored_items(items, n);
        assert(kept.drop_last() =~= crate::convert::stored_items(items, n - 1));
    }
}

} // verus!
