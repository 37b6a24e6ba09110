//! What declarations say when they are written: each thing under its own name.
use vstd::prelude::*;

#[allow(unused_imports)]
use crate::json::JsonView;
#[allow(unused_imports)]
use crate::names::{DeclaredNameView, OriginView};
#[allow(unused_imports)]
use crate::tools::{
    CodexNamespaceMemberView, FunctionToolParamView, McpToolParamView, ResponsesTool,
    ResponsesToolView, ToolType,
};
#[allow(unused_imports)]
use crate::wire::{FromJson, ToJson};

verus! {

pub(crate) proof fn declared_keys_differ()
    ensures
        "name"@ != "type"@,
        "name"@ != "description"@,
        "name"@ != "parameters"@,
        "name"@ != "strict"@,
        "name"@ != "defer_loading"@,
        "name"@ != "format"@,
        "name"@ != "tools"@,
        "type"@ != "description"@,
        "type"@ != "parameters"@,
        "type"@ != "strict"@,
        "type"@ != "defer_loading"@,
        "type"@ != "format"@,
        "type"@ != "tools"@,
        "type"@ != "execution"@,
        "description"@ != "parameters"@,
        "description"@ != "strict"@,
        "description"@ != "defer_loading"@,
        "description"@ != "format"@,
        "description"@ != "tools"@,
        "description"@ != "execution"@,
        "parameters"@ != "strict"@,
        "parameters"@ != "defer_loading"@,
        "parameters"@ != "execution"@,
        "strict"@ != "defer_loading"@,
{
    reveal_strlit("name");
    reveal_strlit("type");
    reveal_strlit("description");
    reveal_strlit("parameters");
    reveal_strlit("strict");
    reveal_strlit("defer_loading");
    reveal_strlit("format");
    reveal_strlit("tools");
    reveal_strlit("execution");
    assert("name"@.len() == 4 && "name"@[0] == 'n');
    assert("type"@.len() == 4 && "type"@[0] == 't');
    assert("description"@.len() == 11);
    assert("parameters"@.len() == 10);
    assert("strict"@.len() == 6 && "strict"@[0] == 's');
    assert("defer_loading"@.len() == 13);
    assert("format"@.len() == 6 && "format"@[0] == 'f');
    assert("tools"@.len() == 5);
    assert("execution"@.len() == 9);
}

/// Whether a field says yes or no.
pub open spec fn says_whether(
    fields: Map<Seq<char>, JsonView>,
    key: Seq<char>,
    flag: Option<bool>,
) -> bool {
    flag is Some ==> fields.contains_key(key) && fields[key] == JsonView::Bool(flag->0)
}

/// A function declaration says its name, its description, its parameters, whether it is strict
/// and whether it is deferred, each in its own field, and what else was declared.
pub proof fn functions_say_what_they_are(f: FunctionToolParamView)
    ensures
        ({
            let fields = crate::wire_tools::function_param_fields(f);
            &&& crate::accumulator_laws::says(fields, "name"@, f.name)
            &&& f.description is Some ==> crate::accumulator_laws::says(
                fields,
                "description"@,
                f.description->0,
            )
            &&& f.parameters is Some ==> fields.contains_key("parameters"@)
                && fields["parameters"@] == f.parameters->0
            &&& says_whether(fields, "strict"@, f.strict)
            &&& says_whether(fields, "defer_loading"@, f.defer_loading)
            &&& forall|key: Seq<char>|
                f.extra.contains_key(key) && key != "name"@ && key != "description"@ && key
                    != "parameters"@ && key != "strict"@ && key != "defer_loading"@
                    ==> #[trigger] fields.contains_key(key) && fields[key] == f.extra[key]
            &&& forall|key: Seq<char>| #[trigger]
                fields.contains_key(key) && key != "name"@ && !f.extra.contains_key(key) ==> (key
                    == "description"@ && f.description is Some) || (key == "parameters"@
                    && f.parameters is Some) || (key == "strict"@ && f.strict is Some) || (key
                    == "defer_loading"@ && f.defer_loading is Some)
        }),
{
    declared_keys_differ();
}

/// A custom declaration says its name, its description and its format, and what else was
/// declared; a search declaration its description and its parameters.
pub proof fn declarations_say_what_they_are(tool: ResponsesToolView)
    ensures
        ({
            let json = <ResponsesTool as ToJson>::json_of(tool);
            let fields = json->Object_0;
            &&& json is Object
            &&& tool is Function ==> crate::accumulator_laws::says(fields, "type"@, "function"@)
                && crate::accumulator_laws::says(fields, "name"@, tool->Function_0.name)
            &&& tool is Custom ==> {
                &&& crate::accumulator_laws::says(fields, "type"@, "custom"@)
                &&& crate::accumulator_laws::says(fields, "name"@, tool->Custom_0.name)
                &&& tool->Custom_0.description is Some ==> crate::accumulator_laws::says(
                    fields,
                    "description"@,
                    tool->Custom_0.description->0,
                )
                &&& tool->Custom_0.format is Some ==> fields.contains_key("format"@)
                    && fields["format"@] == tool->Custom_0.format->0
            }
            &&& tool is Namespace ==> {
                &&& crate::accumulator_laws::says(fields, "type"@, "namespace"@)
                &&& crate::accumulator_laws::says(fields, "name"@, tool->Namespace_0.name)
                &&& fields.contains_key("tools"@) && fields["tools"@] is Array
                &&& fields["tools"@]->Array_0.len() == tool->Namespace_0.tools.len()
            }
            &&& tool is ToolSearch ==> {
                &&& crate::accumulator_laws::says(fields, "type"@, "tool_search"@)
                &&& crate::accumulator_laws::says(
                    fields,
                    "description"@,
                    tool->ToolSearch_0.description,
                )
                &&& fields.contains_key("parameters"@) && fields["parameters"@]
                    == JsonView::Object(tool->ToolSearch_0.parameters)
            }
            &&& tool is Mcp ==> crate::accumulator_laws::says(fields, "type"@, "mcp"@)
            &&& tool is WebSearch ==> crate::accumulator_laws::says(
                fields,
                "type"@,
                "web_search_preview"@,
            )
            &&& tool is FileSearch ==> crate::accumulator_laws::says(
                fields,
                "type"@,
                "file_search"@,
            )
            &&& tool is CodeInterpreter ==> crate::accumulator_laws::says(
                fields,
                "type"@,
                "code_interpreter"@,
            )
        }),
{
    declared_keys_differ();
    if tool is Function {
        functions_say_what_they_are(tool->Function_0);
    }
}

/// Two functions that are said to be the same definition have the same name, description and
/// parameters; two servers or namespaces the same name.
pub proof fn same_definitions_say_the_same(f: FunctionToolParamView, g: FunctionToolParamView)
    requires
        crate::definitions::canonical_of(ResponsesToolView::Function(f))
            == crate::definitions::canonical_of(ResponsesToolView::Function(g)) ||
        crate::definitions::canonical_member(f) == crate::definitions::canonical_member(g),
    ensures
        f.name == g.name,
        f.description is Some && g.description is Some ==> f.description == g.description,
        f.description is Some && !g.extra.contains_key("description"@) ==> g.description is Some,
        f.strict is Some && g.strict is Some ==> f.strict == g.strict,
        f.parameters is Some && g.parameters is Some ==> crate::json::settled(f.parameters->0)
            == crate::json::settled(g.parameters->0),
{
    declared_keys_differ();
    functions_say_what_they_are(f);
    functions_say_what_they_are(g);
    let a = crate::wire_tools::function_param_fields(f);
    let b = crate::wire_tools::function_param_fields(g);
    if crate::definitions::canonical_member(f) == crate::definitions::canonical_member(g) {
        settled_fields_agree(a, b);
        assert(a["name"@] == JsonView::Text(f.name) && b["name"@] == JsonView::Text(g.name));
        if f.description is Some && g.description is Some {
            assert(a["description"@] == b["description"@]);
        }
        if f.strict is Some && g.strict is Some {
            assert(a["strict"@] == b["strict"@]);
        }
        if f.description is Some {
            assert(a.contains_key("description"@) && b.contains_key("description"@));
            assert(b.contains_key("description"@));
        }
        if f.parameters is Some && g.parameters is Some {
            assert(a.contains_key("parameters"@));
        }
    } else {
        let x = a.insert("type"@, JsonView::Text("function"@));
        let y = b.insert("type"@, JsonView::Text("function"@));
        settled_fields_agree(x, y);
        assert(x["name"@] == JsonView::Text(f.name) && y["name"@] == JsonView::Text(g.name));
        if f.description is Some && g.description is Some {
            assert(x["description"@] == y["description"@]);
        }
        if f.strict is Some && g.strict is Some {
            assert(x["strict"@] == y["strict"@]);
        }
        if f.description is Some {
            assert(x.contains_key("description"@) && y.contains_key("description"@));
            assert(b.contains_key("description"@));
        }
        if f.parameters is Some && g.parameters is Some {
            assert(x.contains_key("parameters"@));
        }
    }
}

proof fn settled_fields_agree(a: Map<Seq<char>, JsonView>, b: Map<Seq<char>, JsonView>)
    requires
        crate::json::settled(JsonView::Object(a)) == crate::json::settled(JsonView::Object(b)),
    ensures
        forall|key: Seq<char>|
            #![trigger a.contains_key(key)]
            #![trigger b.contains_key(key)]
            a.contains_key(key) == b.contains_key(key) && (a.contains_key(key)
                ==> crate::json::settled(a[key]) == crate::json::settled(b[key])),
        forall|key: Seq<char>|
            #![trigger a[key]]
            a.contains_key(key) && a[key] is Text && b[key] is Text ==> a[key] == b[key],
        forall|key: Seq<char>|
            #![trigger a[key]]
            a.contains_key(key) && a[key] is Bool && b[key] is Bool ==> a[key] == b[key],
{
    let x = crate::json::settled(JsonView::Object(a))->Object_0;
    let y = crate::json::settled(JsonView::Object(b))->Object_0;
    assert(x == y);
    assert forall|key: Seq<char>|
        #![trigger a.contains_key(key)]
        #![trigger b.contains_key(key)]
        a.contains_key(key) == b.contains_key(key) && (a.contains_key(key) ==> crate::json::settled(
            a[key],
        ) == crate::json::settled(b[key])) by {
        assert(x.contains_key(key) == a.contains_key(key));
        assert(y.contains_key(key) == b.contains_key(key));
        if a.contains_key(key) {
            assert(x[key] == crate::json::settled(a[key]));
            assert(y[key] == crate::json::settled(b[key]));
        }
    }
}

/// A number that tells apart the names that are written here.
#[verifier::opaque]
spec fn mark(name: Seq<char>) -> int {
    1000 * name.len() + name[0] as int + 3 * (name.last() as int) + 11 * (name[(name.len() as int)
        / 2] as int)
}

/// The kinds of declarations are told apart.
proof fn kinds_differ()
    ensures
        mark("function"@) == 9708,
        mark("tool_search"@) == 12693,
        mark("mcp"@) == 4534,
        mark("namespace"@) == 10678,
        mark("custom"@) == 7702,
        mark("web_search_preview"@) == 19620,
        mark("web_search"@) == 11542,
        mark("file_search"@) == 12679,
        mark("code_interpreter"@) == 17552,
        mark("unknown"@) == 8657,
{
    reveal(mark);
    reveal_strlit("function");
    reveal_strlit("tool_search");
    reveal_strlit("mcp");
    reveal_strlit("namespace");
    reveal_strlit("custom");
    reveal_strlit("web_search_preview");
    reveal_strlit("web_search");
    reveal_strlit("file_search");
    reveal_strlit("code_interpreter");
    reveal_strlit("unknown");
    assert("function"@.len() == 8 && "function"@[4] == 't');
    assert("tool_search"@.len() == 11 && "tool_search"@[5] == 's');
    assert("mcp"@.len() == 3 && "mcp"@[1] == 'c');
    assert("namespace"@.len() == 9 && "namespace"@[4] == 's');
    assert("custom"@.len() == 6 && "custom"@[3] == 't');
    assert("web_search_preview"@.len() == 18 && "web_search_preview"@[9] == 'h');
    assert("web_search"@.len() == 10 && "web_search"@[5] == 'e');
    assert("file_search"@.len() == 11 && "file_search"@[5] == 's');
    assert("code_interpreter"@.len() == 16 && "code_interpreter"@[8] == 'e');
    assert("unknown"@.len() == 7 && "unknown"@[3] == 'n');
}

/// The names of what a server's declaration says are told apart.
proof fn server_keys_differ()
    ensures
        mark("type"@) == 5651,
        mark("server_label"@) == 13484,
        mark("server_description"@) == 19710,
        mark("server_url"@) == 11693,
        mark("connector_id"@) == 13675,
        mark("authorization"@) == 14582,
        mark("headers"@) == 8549,
        mark("require_approval"@) == 17505,
        mark("allowed_tools"@) == 14542,
        mark("defer_loading"@) == 14597,
        mark("_agentic_discovered_tools"@) == 26529,
{
    reveal(mark);
    reveal_strlit("type");
    reveal_strlit("server_label");
    reveal_strlit("server_description");
    reveal_strlit("server_url");
    reveal_strlit("connector_id");
    reveal_strlit("authorization");
    reveal_strlit("headers");
    reveal_strlit("require_approval");
    reveal_strlit("allowed_tools");
    reveal_strlit("defer_loading");
    reveal_strlit("_agentic_discovered_tools");
    assert("type"@.len() == 4 && "type"@[2] == 'p');
    assert("server_label"@.len() == 12 && "server_label"@[6] == '_');
    assert("server_description"@.len() == 18 && "server_description"@[9] == 's');
    assert("server_url"@.len() == 10 && "server_url"@[5] == 'r');
    assert("connector_id"@.len() == 12 && "connector_id"@[6] == 't');
    assert("authorization"@.len() == 13 && "authorization"@[6] == 'i');
    assert("headers"@.len() == 7 && "headers"@[3] == 'd');
    assert("require_approval"@.len() == 16 && "require_approval"@[8] == 'a');
    assert("allowed_tools"@.len() == 13 && "allowed_tools"@[6] == 'd');
    assert("defer_loading"@.len() == 13 && "defer_loading"@[6] == 'l');
    assert("_agentic_discovered_tools"@.len() == 25 && "_agentic_discovered_tools"@[12] == 'c');
}

/// A function declaration is read with its name, its description, its parameters and its flags,
/// and everything else that it says is kept; one without a name is none.
pub proof fn functions_are_read(fields: Map<Seq<char>, JsonView>, name: Seq<char>)
    requires
        crate::accumulator_laws::says(fields, "type"@, "function"@),
    ensures
        ({
            let read = <ResponsesTool as FromJson>::of_json(JsonView::Object(fields));
            let f = read->0->Function_0;
            &&& !fields.contains_key("name"@) ==> read is None
            &&& crate::accumulator_laws::says(fields, "name"@, Seq::empty()) ==> read is None
            &&& read is Some ==> read->0 is Function
            &&& read is Some && crate::accumulator_laws::says(fields, "name"@, name) ==> f.name
                == name
            &&& crate::accumulator_laws::says(fields, "name"@, name) && name.len() > 0
                && !fields.contains_key("description"@) && !fields.contains_key("strict"@)
                && !fields.contains_key("defer_loading"@) ==> read is Some
            &&& read is Some ==> crate::payload_laws::is_read(
                fields,
                "description"@,
                f.description,
            )
            &&& read is Some ==> is_flag(fields, "strict"@, f.strict) && is_flag(
                fields,
                "defer_loading"@,
                f.defer_loading,
            )
            &&& read is Some && fields.contains_key("parameters"@) && !(fields["parameters"@]
                is Null) ==> f.parameters == Some(fields["parameters"@])
            &&& read is Some && !fields.contains_key("parameters"@) ==> f.parameters is None
            &&& read is Some ==> forall|key: Seq<char>|
                key != "type"@ && key != "name"@ && key != "description"@ && key != "parameters"@
                    && key != "strict"@ && key != "defer_loading"@ ==> (
                #[trigger] f.extra.contains_key(key)) == fields.contains_key(key) && (
                fields.contains_key(key) ==> f.extra[key] == fields[key])
        }),
{
    let keys = seq![
        "type"@,
        "name"@,
        "description"@,
        "parameters"@,
        "strict"@,
        "defer_loading"@,
    ];
    reveal_with_fuel(crate::wire::without, 7);
    assert(keys.drop_last() =~= seq!["type"@, "name"@, "description"@, "parameters"@, "strict"@]);
    assert(keys.drop_last().drop_last() =~= seq![
        "type"@,
        "name"@,
        "description"@,
        "parameters"@,
    ]);
    assert(keys.drop_last().drop_last().drop_last() =~= seq!["type"@, "name"@, "description"@]);
    assert(keys.drop_last().drop_last().drop_last().drop_last() =~= seq!["type"@, "name"@]);
    assert(keys.drop_last().drop_last().drop_last().drop_last().drop_last() =~= seq!["type"@]);
    assert(keys.drop_last().drop_last().drop_last().drop_last().drop_last().drop_last()
        =~= Seq::empty());
    assert(crate::wire::without(fields, keys) == fields.remove("type"@).remove("name"@).remove(
        "description"@,
    ).remove("parameters"@).remove("strict"@).remove("defer_loading"@));
}

/// Whether a flag that may be absent is what a field says.
pub open spec fn is_flag(
    fields: Map<Seq<char>, JsonView>,
    key: Seq<char>,
    flag: Option<bool>,
) -> bool {
    match flag {
        Some(b) => fields.contains_key(key) && fields[key] == JsonView::Bool(b),
        None => !fields.contains_key(key) || fields[key] is Null,
    }
}

/// A declaration is read as the kind that it says. The gateway's own tools keep every setting
/// that they are declared with, and a kind that is not known is kept as such.
pub proof fn declarations_are_read_as_their_kind(
    fields: Map<Seq<char>, JsonView>,
    kind: Seq<char>,
    name: Seq<char>,
)
    requires
        crate::accumulator_laws::says(fields, "type"@, kind),
    ensures
        ({
            let read = <ResponsesTool as FromJson>::of_json(JsonView::Object(fields));
            let rest = fields.remove("type"@);
            &&& kind == "web_search_preview"@ || kind == "web_search"@ ==> read is Some && read->0
                is WebSearch && read->0->WebSearch_0.fields == rest
            &&& kind == "file_search"@ ==> read is Some && read->0 is FileSearch
                && read->0->FileSearch_0.fields == rest
            &&& kind == "code_interpreter"@ ==> read is Some && read->0 is CodeInterpreter
                && read->0->CodeInterpreter_0.fields == rest
            &&& kind == "unknown"@ ==> read == Some(ResponsesToolView::Unknown)
            &&& kind == "custom"@ && read is Some ==> read->0 is Custom
            &&& kind == "custom"@ && crate::accumulator_laws::says(fields, "name"@, name)
                && name.len() > 0 && !fields.contains_key("description"@) ==> read is Some
                && read->0->Custom_0.name == name
            &&& kind == "namespace"@ && read is Some ==> read->0 is Namespace
                && crate::accumulator_laws::says(
                fields,
                "name"@,
                read->0->Namespace_0.name,
            ) && crate::payload_laws::is_read(
                fields,
                "description"@,
                read->0->Namespace_0.description,
            )
            &&& kind == "tool_search"@ && read is Some ==> read->0 is ToolSearch
            &&& kind == "tool_search"@ && read is Some && fields.contains_key("parameters"@)
                && fields["parameters"@] is Object ==> read->0->ToolSearch_0.parameters
                == fields["parameters"@]->Object_0
            &&& kind == "tool_search"@ && read is Some && fields.contains_key("description"@)
                && fields["description"@] is Text ==> read->0->ToolSearch_0.description
                == fields["description"@]->Text_0
            &&& kind == "mcp"@ && read is Some ==> {
                let m = read->0->Mcp_0;
                &&& read->0 is Mcp
                &&& crate::accumulator_laws::says(fields, "server_label"@, m.server_label)
                &&& crate::payload_laws::is_read(
                    fields,
                    "server_description"@,
                    m.server_description,
                )
                &&& crate::payload_laws::is_read(fields, "server_url"@, m.server_url)
                &&& crate::payload_laws::is_read(fields, "connector_id"@, m.connector_id)
                &&& crate::payload_laws::is_read(fields, "authorization"@, m.authorization)
                &&& crate::payload_laws::is_read(
                    fields,
                    "require_approval"@,
                    m.require_approval,
                )
                &&& is_flag(fields, "defer_loading"@, m.defer_loading)
                &&& fields.contains_key("headers"@) && fields["headers"@] is Object ==> m.headers
                    == fields["headers"@]->Object_0
                &&& !fields.contains_key("allowed_tools"@) ==> m.allowed_tools is None
            }
        }),
{
    kinds_differ();
    declared_keys_differ();
}

/// A declaration that does not say its kind is none.
pub proof fn declarations_say_their_kind(fields: Map<Seq<char>, JsonView>)
    requires
        !fields.contains_key("type"@),
    ensures
        <ResponsesTool as FromJson>::of_json(JsonView::Object(fields)) is None,
{
}

/// A server's declaration is written with everything that it holds, each under its own name.
pub proof fn servers_say_what_they_are(m: McpToolParamView)
    ensures
        ({
            let fields = crate::wire_tools::mcp_param_fields(m);
            &&& crate::accumulator_laws::says(fields, "server_label"@, m.server_label)
            &&& crate::payload_laws::is_field(
                fields,
                "server_description"@,
                crate::payload_laws::as_text(m.server_description),
            )
            &&& crate::payload_laws::is_field(
                fields,
                "server_url"@,
                crate::payload_laws::as_text(m.server_url),
            )
            &&& crate::payload_laws::is_field(
                fields,
                "connector_id"@,
                crate::payload_laws::as_text(m.connector_id),
            )
            &&& crate::payload_laws::is_field(
                fields,
                "authorization"@,
                crate::payload_laws::as_text(m.authorization),
            )
            &&& crate::payload_laws::is_field(
                fields,
                "require_approval"@,
                crate::payload_laws::as_text(m.require_approval),
            )
            &&& says_whether(fields, "defer_loading"@, m.defer_loading)
            &&& m.allowed_tools is Some ==> fields.contains_key("allowed_tools"@)
                && fields["allowed_tools"@] is Array && fields["allowed_tools"@]->Array_0.len()
                == m.allowed_tools->0.len() && forall|i: int|
                0 <= i < m.allowed_tools->0.len() ==> (
                #[trigger] fields["allowed_tools"@]->Array_0[i]) == JsonView::Text(
                    m.allowed_tools->0[i],
                )
            &&& m.discovered_tools.len() > 0 ==> fields.contains_key("_agentic_discovered_tools"@)
                && fields["_agentic_discovered_tools"@] is Array
                && fields["_agentic_discovered_tools"@]->Array_0.len() == m.discovered_tools.len()
        }),
{
    server_keys_differ();
}

/// The gateway runs what it hosts or what a server offers, and nothing else; what it runs
/// registers as what it is.
pub proof fn declarations_have_owners(tool: ResponsesToolView)
    ensures
        crate::tools::gateway_owned_tool(tool) <==> tool is Mcp || tool is WebSearch || tool
            is FileSearch || tool is CodeInterpreter,
        crate::tools::declared_type(tool) is None <==> tool is Custom || tool is ToolSearch
            || tool is Unknown,
        tool is Mcp <==> crate::tools::declared_type(tool) == Some(ToolType::Mcp),
        tool is WebSearch <==> crate::tools::declared_type(tool) == Some(ToolType::WebSearch),
        tool is FileSearch <==> crate::tools::declared_type(tool) == Some(ToolType::FileSearch),
        tool is CodeInterpreter <==> crate::tools::declared_type(tool) == Some(
            ToolType::CodeInterpreter,
        ),
        tool is Namespace <==> crate::tools::declared_type(tool) == Some(
            ToolType::CodexNamespace,
        ),
        tool is Function <==> crate::tools::declared_type(tool) == Some(ToolType::Function),
{
}

/// Where two declarations take one name, what is said names it, the one that came first and the
/// one that came later.
pub proof fn collisions_name_both(existing: DeclaredNameView, new: DeclaredNameView)
    ensures
        ({
            let error = crate::names::collision(existing, new);
            &&& error is Config
            &&& is_within(error->Config_0, new.name)
            &&& existing.origin is TopLevel ==> is_within(
                error->Config_0,
                existing.origin->TopLevel_description,
            )
            &&& new.origin is TopLevel ==> is_within(
                error->Config_0,
                new.origin->TopLevel_description,
            )
            &&& new.origin is NamespaceMember ==> is_within(
                error->Config_0,
                new.origin->NamespaceMember_namespace + "."@ + new.origin->NamespaceMember_member,
            )
        }),
{
    let text = crate::names::collision(existing, new)->Config_0;
    let old_origin = crate::names::origin_description(existing.origin);
    match new.origin {
        OriginView::NamespaceMember { namespace, member } => {
            let head = "codex namespace member "@;
            let path = namespace + "."@ + member;
            let mid = " at generated name "@;
            let end = ", which collides with a declared "@;
            assert(text =~= head + path + (mid + new.name + end + old_origin));
            assert(text =~= (head + path + mid) + new.name + (end + old_origin));
            assert(text =~= (head + path + mid + new.name + end) + old_origin + Seq::empty());
        },
        OriginView::TopLevel { description } => {
            let mid = " model-visible name '"@;
            let end = "' collides with declared "@;
            assert(text =~= Seq::<char>::empty() + description + (mid + new.name + end
                + old_origin));
            assert(text =~= (description + mid) + new.name + (end + old_origin));
            assert(text =~= (description + mid + new.name + end) + old_origin + Seq::empty());
        },
    }
}

/// Whether a text stands within another.
pub open spec fn is_within(text: Seq<char>, part: Seq<char>) -> bool {
    exists|before: Seq<char>, after: Seq<char>| text == #[trigger] (before + part + after)
}

/// Every declaration takes the name under which the model sees its tool: functions and custom
/// tools their own, the gateway's own tools theirs. Servers and searches take none here.
pub proof fn declarations_take_their_names(tool: ResponsesToolView)
    ensures
        ({
            let names = crate::names::tool_declared_names(tool);
            &&& tool is Function ==> names.len() == 1 && names[0].name == tool->Function_0.name
            &&& tool is Custom ==> names.len() == 1 && names[0].name == tool->Custom_0.name
            &&& tool is WebSearch ==> names.len() == 1 && names[0].name == "web_search"@
            &&& tool is FileSearch ==> names.len() == 1 && names[0].name == "file_search"@
            &&& tool is CodeInterpreter ==> names.len() == 1 && names[0].name
                == "code_interpreter"@
            &&& tool is Mcp || tool is ToolSearch || tool is Unknown ==> names.len() == 0
        }),
{
}

/// Every member of a namespace takes its flat name, in the order of the members.
pub proof fn members_take_their_names(
    namespace: Seq<char>,
    members: Seq<CodexNamespaceMemberView>,
)
    requires
        forall|i: int| 0 <= i < members.len() ==> (#[trigger] members[i]) is Function,
    ensures
        ({
            let names = crate::names::member_declared_names(namespace, members);
            &&& names.len() == members.len()
            &&& forall|i: int|
                0 <= i < members.len() ==> (#[trigger] names[i]).name
                    == crate::names::member_name(namespace, members[i]->Function_0.name)
        }),
    decreases members.len(),
{
    if members.len() > 0 {
        members_take_their_names(namespace, members.drop_last());
    }
}

} // verus!
