//! Namespaces: functions that the client groups and the model sees under flat names.
use vstd::prelude::*;

use crate::data::Data;
#[allow(unused_imports)]
use crate::error::{ToolError, ToolErrorView};
use crate::events::WireEvent;
#[allow(unused_imports)]
use crate::events::WireEventView;
use crate::items::{InputItem, OutputItem, ResponsesInput};
#[allow(unused_imports)]
use crate::items::{
    FunctionToolCallView, InputFunctionToolCallView, InputItemView, OutputItemView,
    ResponsesInputView,
};
#[allow(unused_imports)]
use crate::json::{Json, JsonObject, JsonView};
use crate::names::{model_visible_namespace_member_name, validate_model_visible_declared_names};
use crate::tables::Table;
use crate::text::same_text;
use crate::tools::{
    CodexNamespaceMember, CodexNamespaceToolParam, FunctionTool, ResponsesTool, ToolChoice,
};
#[allow(unused_imports)]
use crate::tools::{
    CodexNamespaceMemberView, CodexNamespaceToolParamView, FunctionToolParamView, FunctionToolView,
    ResponsesToolView, ToolChoiceView,
};

verus! {

/// A member of a namespace: its namespace and its own name.
#[derive(Debug, Clone, PartialEq)]
pub struct NamespaceMember {
    pub namespace: String,
    pub name: String,
}

/// The view of a [`NamespaceMember`].
#[verifier::ext_equal]
pub struct NamespaceMemberView {
    pub namespace: Seq<char>,
    pub name: Seq<char>,
}

impl View for NamespaceMember {
    type V = NamespaceMemberView;

    open spec fn view(&self) -> NamespaceMemberView {
        NamespaceMemberView {
            namespace: self.namespace@,
            name: self.name@,
        }
    }
}

impl Data for NamespaceMember {
    fn copied(&self) -> (out: NamespaceMember) {
        NamespaceMember {
            namespace: self.namespace.copied(),
            name: self.name.copied(),
        }
    }

    fn same(&self, other: &NamespaceMember) -> (yes: bool) {
        self.namespace.same(&other.namespace)
            && self.name.same(&other.name)
    }
}

/// Handles namespaces: the model sees their members as functions with flat names, the
/// client as members.
#[derive(Debug)]
pub struct CodexNamespaceHandler;

/// The members of a request's namespaces by their flat names.
#[derive(Debug)]
pub struct NamespaceMap {
    pub members: Table<String, NamespaceMember>,
}

impl View for NamespaceMap {
    type V = Map<Seq<char>, NamespaceMemberView>;

    open spec fn view(&self) -> Map<Seq<char>, NamespaceMemberView> {
        self.members@
    }
}

/// The view of a map that may be absent.
pub open spec fn map_view(
    map: Option<&NamespaceMap>,
) -> Option<Map<Seq<char>, NamespaceMemberView>> {
    match map {
        Some(m) => Some(m@),
        None => None,
    }
}

/// A member under its flat name.
pub open spec fn renamed_member(
    namespace: Seq<char>,
    member: CodexNamespaceMemberView,
) -> CodexNamespaceMemberView {
    match member {
        CodexNamespaceMemberView::Function(f) => CodexNamespaceMemberView::Function(
            FunctionToolParamView { name: crate::names::member_name(namespace, f.name), ..f },
        ),
        CodexNamespaceMemberView::Unknown => CodexNamespaceMemberView::Unknown,
    }
}

/// A declaration with its members under their flat names.
pub open spec fn renamed_tool(tool: ResponsesToolView) -> ResponsesToolView {
    match tool {
        ResponsesToolView::Namespace(n) => ResponsesToolView::Namespace(
            CodexNamespaceToolParamView {
                tools: n.tools.map_values(
                    |member: CodexNamespaceMemberView| renamed_member(n.name, member),
                ),
                ..n
            },
        ),
        other => other,
    }
}

/// The declarations with all members under their flat names.
pub open spec fn renamed_tools(tools: Seq<ResponsesToolView>) -> Seq<ResponsesToolView> {
    tools.map_values(|tool: ResponsesToolView| renamed_tool(tool))
}

fn rename_namespace(n: &CodexNamespaceToolParam) -> (out: CodexNamespaceToolParam)
    ensures
        ResponsesToolView::Namespace(out@) == renamed_tool(ResponsesToolView::Namespace(n@)),
{
    let mut members: Vec<CodexNamespaceMember> = Vec::new();
    let mut i: usize = 0;
    while i < n.tools.len()
        invariant
            i <= n.tools@.len(),
            members@.len() == i,
            forall|j: int|
                0 <= j < i ==> (#[trigger] members@[j])@ == renamed_member(n.name@, n.tools@[j]@),
        decreases n.tools@.len() - i,
    {
        let member = match &n.tools[i] {
            CodexNamespaceMember::Function(f) => {
                let mut f = f.copied();
                f.name = model_visible_namespace_member_name(n.name.as_str(), f.name.as_str());
                CodexNamespaceMember::Function(f)
            },
            CodexNamespaceMember::Unknown => CodexNamespaceMember::Unknown,
        };
        members.push(member);
        i = i + 1;
    }
    let mut out = n.copied();
    out.tools = members;
    proof {
        assert(crate::data::views(members@) =~= n@.tools.map_values(
            |member: CodexNamespaceMemberView| renamed_member(n.name@, member),
        ));
    }
    out
}

/// The functions that the members of a namespace are, up to the member `n`.
pub open spec fn member_functions(
    members: Seq<CodexNamespaceMemberView>,
    n: int,
) -> Seq<FunctionToolView>
    decreases n,
{
    if n <= 0 {
        Seq::empty()
    } else {
        match members[n - 1] {
            CodexNamespaceMemberView::Function(f) => member_functions(members, n - 1).push(
                crate::normalize::param_function(f),
            ),
            CodexNamespaceMemberView::Unknown => member_functions(members, n - 1),
        }
    }
}

/// The members of one namespace by their flat names, up to the member `n`, added to
/// those that are known.
pub open spec fn members_known(
    known: Map<Seq<char>, NamespaceMemberView>,
    namespace: Seq<char>,
    members: Seq<CodexNamespaceMemberView>,
    n: int,
) -> Map<Seq<char>, NamespaceMemberView>
    decreases n,
{
    if n <= 0 {
        known
    } else {
        let before = members_known(known, namespace, members, n - 1);
        match members[n - 1] {
            CodexNamespaceMemberView::Function(f) => before.insert(
                crate::names::member_name(namespace, f.name),
                NamespaceMemberView { namespace, name: f.name },
            ),
            CodexNamespaceMemberView::Unknown => before,
        }
    }
}

/// The members of all namespaces by their flat names, up to the declaration `n`.
pub open spec fn namespaces_known(tools: Seq<ResponsesToolView>, n: int) -> Map<
    Seq<char>,
    NamespaceMemberView,
>
    decreases n,
{
    if n <= 0 {
        Map::empty()
    } else {
        let before = namespaces_known(tools, n - 1);
        match tools[n - 1] {
            ResponsesToolView::Namespace(p) => members_known(
                before,
                p.name,
                p.tools,
                p.tools.len() as int,
            ),
            _ => before,
        }
    }
}

/// The members of a request's namespaces by their flat names; nothing where it has
/// none. Two tools with one name are an error.
pub open spec fn namespace_map_of(tools: Option<Seq<ResponsesToolView>>) -> Result<
    Option<Map<Seq<char>, NamespaceMemberView>>,
    ToolErrorView,
> {
    match tools {
        None => Ok(None),
        Some(tools) => match crate::names::take_names(crate::names::declared_names(tools)) {
            Err(e) => Err(e),
            Ok(_) => {
                let known = namespaces_known(tools, tools.len() as int);
                if known == Map::<Seq<char>, NamespaceMemberView>::empty() {
                    Ok(None)
                } else {
                    Ok(Some(known))
                }
            },
        },
    }
}

/// The view of a map that may be absent, or of an error.
pub open spec fn map_outcome(out: Result<Option<NamespaceMap>, ToolError>) -> Result<
    Option<Map<Seq<char>, NamespaceMemberView>>,
    ToolErrorView,
> {
    match out {
        Ok(map) => Ok(crate::data::opt_view(map)),
        Err(e) => Err(e@),
    }
}

/// The flat name of a member that the map knows.
pub open spec fn known_flat_name(
    map: Option<Map<Seq<char>, NamespaceMemberView>>,
    namespace: Option<Seq<char>>,
    name: Seq<char>,
) -> Option<Seq<char>> {
    match (map, namespace) {
        (Some(known), Some(namespace)) => {
            let flat = crate::names::member_name(namespace, name);
            if known.contains_key(flat) && known[flat] == (NamespaceMemberView { namespace, name }) {
                Some(flat)
            } else {
                None
            }
        },
        _ => None,
    }
}

fn find_flat_name(
    map: Option<&NamespaceMap>,
    namespace: &Option<String>,
    name: &String,
) -> (flat: Option<
    String,
>)
    ensures
        crate::data::opt_view(flat) == known_flat_name(
            map_view(map),
            crate::data::opt_view(*namespace),
            name@,
        ),
{
    match (map, namespace) {
        (Some(known), Some(namespace)) => {
            let flat = model_visible_namespace_member_name(namespace.as_str(), name.as_str());
            match known.members.get(&flat) {
                Some(member) => if same_text(member.namespace.as_str(), namespace.as_str())
                    && same_text(member.name.as_str(), name.as_str()) {
                    Some(flat)
                } else {
                    None
                },
                None => None,
            }
        },
        _ => None,
    }
}

/// An item of the history with a member's call under its flat name.
pub open spec fn resolved_item(
    map: Option<Map<Seq<char>, NamespaceMemberView>>,
    item: InputItemView,
) -> InputItemView {
    match item {
        InputItemView::FunctionCall(call) => match known_flat_name(map, call.namespace, call.name) {
            Some(flat) => InputItemView::FunctionCall(
                InputFunctionToolCallView { name: flat, namespace: None, ..call },
            ),
            None => item,
        },
        other => other,
    }
}

/// The input with all calls of members under their flat names.
pub open spec fn resolved_input(
    map: Option<Map<Seq<char>, NamespaceMemberView>>,
    input: ResponsesInputView,
) -> ResponsesInputView {
    match input {
        ResponsesInputView::Text(t) => ResponsesInputView::Text(t),
        ResponsesInputView::Items(items) => ResponsesInputView::Items(
            items.map_values(|item: InputItemView| resolved_item(map, item)),
        ),
    }
}

/// A choice with a member under its flat name; the default where none was made.
pub open spec fn resolved_choice(
    map: Option<Map<Seq<char>, NamespaceMemberView>>,
    choice: Option<ToolChoiceView>,
) -> ToolChoiceView {
    match choice {
        None => ToolChoiceView::Auto,
        Some(ToolChoiceView::Function { namespace, name }) => match known_flat_name(
            map,
            namespace,
            name,
        ) {
            Some(flat) => ToolChoiceView::Function { namespace: None, name: flat },
            None => ToolChoiceView::Function { namespace, name },
        },
        Some(other) => other,
    }
}

/// An output item with a member's call under the member's own name.
pub open spec fn restored_item(
    map: Option<Map<Seq<char>, NamespaceMemberView>>,
    item: OutputItemView,
) -> OutputItemView {
    match (map, item) {
        (Some(known), OutputItemView::FunctionCall(call)) => if call.namespace is None
            && known.contains_key(call.name) {
            OutputItemView::FunctionCall(
                FunctionToolCallView {
                    namespace: Some(known[call.name].namespace),
                    name: known[call.name].name,
                    ..call
                },
            )
        } else {
            item
        },
        _ => item,
    }
}

/// A member's call as JSON, under the member's own name.
pub open spec fn restored_call_value(
    map: Map<Seq<char>, NamespaceMemberView>,
    value: JsonView,
) -> JsonView {
    match value {
        JsonView::Object(fields) => match crate::json::text_field(fields, "name"@) {
            Some(name) if crate::json::text_field(fields, "type"@) == Some("function_call"@)
                && crate::json::text_field(
                    fields,
                    "namespace"@,
                ) is None && map.contains_key(name) =>
            JsonView::Object(
                fields.insert("name"@, JsonView::Text(map[name].name)).insert(
                    "namespace"@,
                    JsonView::Text(map[name].namespace),
                ),
            ),
            _ => value,
        },
        _ => value,
    }
}

fn restore_call_value(map: &NamespaceMap, value: &Json) -> (out: Json)
    ensures
        out@ == restored_call_value(map@, value@),
{
    match value {
        Json::Object(fields) => {
            if fields.field_is("type", "function_call") && fields.get_str("namespace").is_none() {
                if let Some(name) = fields.get_str("name") {
                    if let Some(member) = map.members.get(&name.to_owned()) {
                        let mut restored = fields.copy();
                        restored.set_str("name", member.name.as_str());
                        restored.set_str("namespace", member.namespace.as_str());
                        return Json::Object(restored);
                    }
                }
            }
            value.copy()
        },
        _ => value.copy(),
    }
}

/// The fields of an event with the calls of members under the members' own names: its
/// item's, and those of its response's output.
pub open spec fn restored_fields(
    map: Map<Seq<char>, NamespaceMemberView>,
    fields: Map<Seq<char>, JsonView>,
) -> Map<
    Seq<char>,
    JsonView,
> {
    let with_item = match crate::json::object_field(fields, "item"@) {
        Some(item) => fields.insert("item"@, restored_call_value(map, item)),
        None => fields,
    };
    match crate::json::object_field(fields, "response"@) {
        Some(JsonView::Object(response)) => match crate::json::object_field(response, "output"@) {
            Some(JsonView::Array(items)) => with_item.insert(
                "response"@,
                JsonView::Object(
                    response.insert(
                        "output"@,
                        JsonView::Array(
                            items.map_values(|item: JsonView| restored_call_value(map, item)),
                        ),
                    ),
                ),
            ),
            _ => with_item,
        },
        _ => with_item,
    }
}

fn restore_values(map: &NamespaceMap, items: &Vec<Json>) -> (out: Json)
    ensures
        out@ == JsonView::Array(
            crate::data::views(items@).map_values(
                |item: JsonView| restored_call_value(map@, item),
            ),
        ),
{
    let mut out: Vec<Json> = Vec::new();
    let mut i: usize = 0;
    while i < items.len()
        invariant
            i <= items@.len(),
            out@.len() == i,
            forall|j: int|
                0 <= j < i ==> (#[trigger] out@[j])@ == restored_call_value(map@, items@[j]@),
        decreases items@.len() - i,
    {
        out.push(restore_call_value(map, &items[i]));
        i = i + 1;
    }
    let value = Json::Array(out);
    proof {
        assert(value@->Array_0 =~= crate::data::views(items@).map_values(
            |item: JsonView| restored_call_value(map@, item),
        ));
    }
    value
}

impl CodexNamespaceHandler {
    /// The declarations with all members under their flat names.
    pub fn resolve_namespace_members_after_validation(tools: &Vec<ResponsesTool>) -> (out: Vec<
        ResponsesTool,
    >)
        ensures
            crate::data::views(out@) == renamed_tools(crate::data::views(tools@)),
    {
        let mut out: Vec<ResponsesTool> = Vec::new();
        let mut i: usize = 0;
        while i < tools.len()
            invariant
                i <= tools@.len(),
                out@.len() == i,
                forall|j: int| 0 <= j < i ==> (#[trigger] out@[j])@ == renamed_tool(tools@[j]@),
            decreases tools@.len() - i,
        {
            let tool = match &tools[i] {
                ResponsesTool::Namespace(n) => ResponsesTool::Namespace(rename_namespace(n)),
                other => other.copied(),
            };
            out.push(tool);
            i = i + 1;
        }
        proof {
            assert(crate::data::views(out@) =~= renamed_tools(crate::data::views(tools@)));
        }
        out
    }

    /// The declarations with all members under their flat names. Two tools with one name
    /// are an error.
    pub fn resolve_namespace_members(&self, tools: &Vec<ResponsesTool>) -> (out: Result<
        Vec<ResponsesTool>,
        ToolError,
    >)
        ensures
            match crate::names::take_names(
                crate::names::declared_names(crate::data::views(tools@)),
            ) {
                Ok(_) => out matches Ok(renamed) && crate::data::views(renamed@) == renamed_tools(
                    crate::data::views(tools@),
                ),
                Err(e) => out matches Err(x) && x@ == e,
            },
    {
        if let Err(e) = validate_model_visible_declared_names(tools) {
            return Err(e);
        }
        Ok(Self::resolve_namespace_members_after_validation(tools))
    }

    /// The functions that the members of a namespace are.
    pub fn normalize(&self, namespace: &CodexNamespaceToolParam) -> (functions: Vec<FunctionTool>)
        ensures
            crate::data::views(functions@) == member_functions(
                namespace@.tools,
                namespace@.tools.len() as int,
            ),
    {
        let mut functions: Vec<FunctionTool> = Vec::new();
        let ghost all = namespace@.tools;
        let mut i: usize = 0;
        proof {
            assert(crate::data::views(functions@) =~= Seq::empty());
        }
        while i < namespace.tools.len()
            invariant
                i <= namespace.tools@.len(),
                all == crate::data::views(namespace.tools@),
                crate::data::views(functions@) == member_functions(all, i as int),
            decreases namespace.tools@.len() - i,
        {
            proof {
                assert(all[i as int] == namespace.tools@[i as int]@);
            }
            if let CodexNamespaceMember::Function(f) = &namespace.tools[i] {
                let function = crate::normalize::function_of_param(f);
                proof {
                    crate::data::views_push(functions@, function);
                }
                functions.push(function);
            }
            i = i + 1;
        }
        functions
    }

    /// The members of a request's namespaces by their flat names.
    pub fn build_namespace_map(&self, tools: Option<&Vec<ResponsesTool>>) -> (out: Result<
        Option<NamespaceMap>,
        ToolError,
    >)
        ensures
            map_outcome(out) == namespace_map_of(tools_view(tools)),
    {
        let tools = match tools {
            Some(tools) => tools,
            None => {
                return Ok(None);
            },
        };
        if let Err(e) = validate_model_visible_declared_names(tools) {
            return Err(e);
        }
        let ghost all = crate::data::views(tools@);
        let mut members: Table<String, NamespaceMember> = Table::new();
        let mut i: usize = 0;
        while i < tools.len()
            invariant
                i <= tools@.len(),
                all == crate::data::views(tools@),
                members@ == namespaces_known(all, i as int),
            decreases tools@.len() - i,
        {
            proof {
                assert(all[i as int] == tools@[i as int]@);
            }
            if let ResponsesTool::Namespace(n) = &tools[i] {
                add_members(&mut members, n);
            }
            i = i + 1;
        }
        if members.is_empty() {
            Ok(None)
        } else {
            Ok(Some(NamespaceMap { members }))
        }
    }

    /// The input with all calls of members under their flat names.
    pub fn resolve_input(
        &self,
        map: Option<&NamespaceMap>,
        input: &ResponsesInput,
    ) -> (out: ResponsesInput)
        ensures
            out@ == resolved_input(map_view(map), input@),
    {
        match input {
            ResponsesInput::Text(t) => ResponsesInput::Text(t.clone()),
            ResponsesInput::Items(items) => {
                let mut out: Vec<InputItem> = Vec::new();
                let ghost known = map_view(map);
                let mut i: usize = 0;
                while i < items.len()
                    invariant
                        i <= items@.len(),
                        known == map_view(map),
                        out@.len() == i,
                        forall|j: int|
                            0 <= j < i ==> (#[trigger] out@[j])@ == resolved_item(known, items@[j]@),
                    decreases items@.len() - i,
                {
                    let item = match &items[i] {
                        InputItem::FunctionCall(call) => match find_flat_name(
                            map,
                            &call.namespace,
                            &call.name,
                        ) {
                            Some(flat) => {
                                let mut call = call.copied();
                                call.name = flat;
                                call.namespace = None;
                                InputItem::FunctionCall(call)
                            },
                            None => items[i].copied(),
                        },
                        other => other.copied(),
                    };
                    out.push(item);
                    i = i + 1;
                }
                proof {
                    assert(crate::data::views(out@) =~= crate::data::views(items@).map_values(
                        |item: InputItemView| resolved_item(known, item),
                    ));
                }
                ResponsesInput::Items(out)
            },
        }
    }

    /// A choice with a member under its flat name; the default where none was made.
    pub fn resolve_tool_choice(
        &self,
        map: Option<&NamespaceMap>,
        choice: &Option<ToolChoice>,
    ) -> (out: ToolChoice)
        ensures
            out@ == resolved_choice(map_view(map), crate::data::opt_view(*choice)),
    {
        match choice {
            None => ToolChoice::Auto,
            Some(
                ToolChoice::Function { namespace, name },
            ) => match find_flat_name(map, namespace, name) {
                Some(flat) => ToolChoice::Function { namespace: None, name: flat },
                None => ToolChoice::Function {
                    namespace: crate::data::copy_opt(namespace),
                    name: name.clone(),
                },
            },
            Some(other) => other.copied(),
        }
    }

    /// Gives calls of members the members' own names back.
    pub fn restore_output_items(
        &self,
        output: &Vec<OutputItem>,
        map: Option<&NamespaceMap>,
    ) -> (out: Vec<
        OutputItem,
    >)
        ensures
            crate::data::views(out@) == crate::data::views(output@).map_values(
                |item: OutputItemView| restored_item(map_view(map), item),
            ),
    {
        let mut out: Vec<OutputItem> = Vec::new();
        let ghost known = map_view(map);
        let mut i: usize = 0;
        while i < output.len()
            invariant
                i <= output@.len(),
                known == map_view(map),
                out@.len() == i,
                forall|j: int|
                    0 <= j < i ==> (#[trigger] out@[j])@ == restored_item(known, output@[j]@),
            decreases output@.len() - i,
        {
            let mut item = output[i].copied();
            if let Some(map) = map {
                if let OutputItem::FunctionCall(call) = &output[i] {
                    if call.namespace.is_none() {
                        if let Some(member) = map.members.get(&call.name) {
                            let mut call = call.copied();
                            call.namespace = Some(member.namespace.clone());
                            call.name = member.name.clone();
                            item = OutputItem::FunctionCall(call);
                        }
                    }
                }
            }
            out.push(item);
            i = i + 1;
        }
        proof {
            assert(crate::data::views(out@) =~= crate::data::views(output@).map_values(
                |item: OutputItemView| restored_item(known, item),
            ));
        }
        out
    }

    /// Gives the calls of members in an event the members' own names back, and says
    /// whether anything changed.
    pub fn restore_response_wire(
        &self,
        wire: &mut WireEvent,
        map: Option<&NamespaceMap>,
    ) -> (changed: bool)
        ensures
            final(wire)@ == (match map_view(map) {
                Some(known) => WireEventView {
                    rest: restored_fields(known, old(wire)@.rest),
                    ..old(wire)@
                },
                None => old(wire)@,
            }),
            changed == (final(wire)@ != old(wire)@),
    {
        let known = match map {
            Some(known) => known,
            None => {
                return false;
            },
        };
        let ghost start = wire@;
        let mut rest = wire.rest.copy();
        if let Some(item) = wire.rest.get("item") {
            rest.set("item", restore_call_value(known, item));
        }
        if let Some(Json::Object(response)) = wire.rest.get("response") {
            if let Some(Json::Array(items)) = response.get("output") {
                let mut restored = response.copy();
                proof {
                    assert(crate::json::array_view(items@) =~= crate::data::views(items@));
                }
                restored.set("output", restore_values(known, items));
                rest.set("response", Json::Object(restored));
            }
        }
        let changed = !JsonObject::same(&rest, &wire.rest);
        wire.rest = rest;
        changed
    }
}

/// The view of declarations that may be absent.
pub open spec fn tools_view(tools: Option<&Vec<ResponsesTool>>) -> Option<Seq<ResponsesToolView>> {
    match tools {
        Some(t) => Some(crate::data::views(t@)),
        None => None,
    }
}

fn add_members(members: &mut Table<String, NamespaceMember>, n: &CodexNamespaceToolParam)
    ensures
        final(members)@ == members_known(
            old(members)@,
            n@.name,
            n@.tools,
            n@.tools.len() as int,
        ),
{
    let ghost start = members@;
    let ghost all = n@.tools;
    let mut i: usize = 0;
    while i < n.tools.len()
        invariant
            i <= n.tools@.len(),
            all == crate::data::views(n.tools@),
            members@ == members_known(start, n@.name, all, i as int),
        decreases n.tools@.len() - i,
    {
        proof {
            assert(all[i as int] == n.tools@[i as int]@);
        }
        if let CodexNamespaceMember::Function(f) = &n.tools[i] {
            let flat = model_visible_namespace_member_name(n.name.as_str(), f.name.as_str());
            let member = NamespaceMember { namespace: n.name.clone(), name: f.name.clone() };
            members.insert(flat, member);
        }
        i = i + 1;
    }
}

/// A call of a member by its flat name comes back under the member's own name: names that
/// are accepted are undone.
pub proof fn member_calls_come_back(
    tools: Seq<ResponsesToolView>,
    p: int,
    q: int,
    call: FunctionToolCallView,
)
    requires
        crate::names::take_names(crate::names::declared_names(tools)) is Ok,
        0 <= p < tools.len(),
        tools[p] matches ResponsesToolView::Namespace(n) && 0 <= q < n.tools.len() && (
        n.tools[q] matches CodexNamespaceMemberView::Function(f) && call.name
            == crate::names::member_name(n.name, f.name) && call.namespace is None),
    ensures
        namespace_map_of(Some(tools)) matches Ok(map) && restored_item(
            map,
            OutputItemView::FunctionCall(call),
        ) == OutputItemView::FunctionCall(
            FunctionToolCallView {
                namespace: Some(tools[p]->Namespace_0.name),
                name: tools[p]->Namespace_0.tools[q]->Function_0.name,
                ..call
            },
        ),
{
    known_by_flat_name(tools, p, q, tools.len() as int);
}

pub(crate) proof fn known_by_flat_name(tools: Seq<ResponsesToolView>, p: int, q: int, n: int)
    requires
        crate::names::take_names(crate::names::declared_names(tools)) is Ok,
        0 <= p < n <= tools.len(),
        tools[p] matches ResponsesToolView::Namespace(s) && 0 <= q < s.tools.len()
            && s.tools[q] is Function,
    ensures
        is_known_as(namespaces_known(tools, n), tools[p]->Namespace_0, q),
    decreases n,
{
    let s = tools[p]->Namespace_0;
    let flat = crate::names::member_name(s.name, s.tools[q]->Function_0.name);
    crate::names::member_name_at(s.name, s.tools, q);
    if p == n - 1 {
        member_known_by_flat_name(
            tools,
            p,
            q,
            namespaces_known(tools, n - 1),
            s.tools.len() as int,
        );
    } else {
        known_by_flat_name(tools, p, q, n - 1);
        if let ResponsesToolView::Namespace(other) = tools[n - 1] {
            let before = namespaces_known(tools, n - 1);
            assert forall|r: int| 0 <= r < other.tools.len() implies has_other_name(
                other.name,
                #[trigger] other.tools[r],
                flat,
            ) by {
                if other.tools[r] is Function {
                    crate::names::member_name_at(other.name, other.tools, r);
                    if !has_other_name(other.name, other.tools[r], flat) {
                        crate::names::names_of_two(
                            tools,
                            p,
                            crate::names::member_place(s.name, s.tools, q),
                            n - 1,
                            crate::names::member_place(other.name, other.tools, r),
                        );
                    }
                }
            }
            other_members_change_nothing(before, other, flat, other.tools.len() as int);
        }
    }
}

/// Whether a member has another flat name.
spec fn has_other_name(
    namespace: Seq<char>,
    member: CodexNamespaceMemberView,
    flat: Seq<char>,
) -> bool {
    member matches CodexNamespaceMemberView::Function(f) ==> crate::names::member_name(
        namespace,
        f.name,
    ) != flat
}

/// Whether a member is known by its flat name.
pub open spec fn is_known_as(
    known: Map<Seq<char>, NamespaceMemberView>,
    namespace: CodexNamespaceToolParamView,
    q: int,
) -> bool {
    let name = namespace.tools[q]->Function_0.name;
    let flat = crate::names::member_name(namespace.name, name);
    known.contains_key(flat) && known[flat] == (NamespaceMemberView {
        namespace: namespace.name,
        name,
    })
}

proof fn other_members_change_nothing(
    known: Map<Seq<char>, NamespaceMemberView>,
    namespace: CodexNamespaceToolParamView,
    flat: Seq<char>,
    n: int,
)
    requires
        0 <= n <= namespace.tools.len(),
        known.contains_key(flat),
        forall|r: int|
            0 <= r < n ==> has_other_name(namespace.name, #[trigger] namespace.tools[r], flat),
    ensures
        members_known(known, namespace.name, namespace.tools, n).contains_key(flat),
        members_known(known, namespace.name, namespace.tools, n)[flat] == known[flat],
    decreases n,
{
    if n > 0 {
        other_members_change_nothing(known, namespace, flat, n - 1);
        assert(has_other_name(namespace.name, namespace.tools[n - 1], flat));
    }
}

proof fn member_known_by_flat_name(
    tools: Seq<ResponsesToolView>,
    p: int,
    q: int,
    known: Map<Seq<char>, NamespaceMemberView>,
    n: int,
)
    requires
        crate::names::take_names(crate::names::declared_names(tools)) is Ok,
        0 <= p < tools.len(),
        tools[p] matches ResponsesToolView::Namespace(s) && 0 <= q < n <= s.tools.len()
            && s.tools[q] is Function,
    ensures
        is_known_as(
            members_known(
                known,
                tools[p]->Namespace_0.name,
                tools[p]->Namespace_0.tools,
                n,
            ),
            tools[p]->Namespace_0,
            q,
        ),
    decreases n,
{
    let s = tools[p]->Namespace_0;
    if q < n - 1 {
        member_known_by_flat_name(tools, p, q, known, n - 1);
        if s.tools[n - 1] is Function {
            crate::names::member_name_at(s.name, s.tools, q);
            crate::names::member_name_at(s.name, s.tools, n - 1);
            crate::names::member_places_grow(s.name, s.tools, q, n - 1);
            if crate::names::member_name(s.name, s.tools[q]->Function_0.name)
                == crate::names::member_name(s.name, s.tools[n - 1]->Function_0.name) {
                crate::names::names_of_two(
                    tools,
                    p,
                    crate::names::member_place(s.name, s.tools, q),
                    p,
                    crate::names::member_place(s.name, s.tools, n - 1),
                );
            }
        }
    }
}

} // verus!
