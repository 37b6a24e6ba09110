//! Client-run tools that take free text, and the function shape in which the
//! model sees them.
use vstd::prelude::*;
#[allow(unused_imports)]
use vstd::string::*;

use crate::data::Data;
#[allow(unused_imports)]
use crate::error::{ToolError, ToolErrorView};
use crate::items::{CustomToolCall, FunctionToolCall, MessageStatus, OutputItem};
#[allow(unused_imports)]
use crate::items::{CustomToolCallView, FunctionToolCallView, OutputItemView};
#[allow(unused_imports)]
use crate::json::{Json, JsonObject, JsonView};
use crate::events::WireEvent;
#[allow(unused_imports)]
use crate::events::WireEventView;
use crate::tables::Table;
use crate::text::{concat, hex, join, same_text, stable_hash, starts_with, strip_prefix, trim};
use crate::tools::{CustomToolParam, FunctionTool, ResponsesTool, ToolType};
#[allow(unused_imports)]
use crate::tools::{CustomToolParamView, FunctionToolView, ResponsesToolView};
use crate::wire::ToJson;

verus! {

/// The handler for `custom` tools. The client runs them: the gateway only shows
/// them to the model and restores their calls.
#[derive(Debug)]
pub struct CustomHandler;

/// The public identity of a custom call: kept where it is public already, else
/// made from the function call's identity.
pub open spec fn custom_item_id(item_id: Seq<char>) -> Seq<char> {
    if crate::text::has_prefix(item_id, "ctc_"@) {
        item_id
    } else if crate::text::has_prefix(item_id, "fc_"@) && item_id.len() > "fc_"@.len() {
        "ctc_"@ + item_id.skip("fc_"@.len() as int)
    } else {
        "ctc_"@ + crate::text::hex_text(
            crate::text::fnv1a(vstd::utf8::encode_utf8(item_id)) as nat,
            16,
        )
    }
}

/// The public identity of a custom call.
pub fn public_item_id(item_id: &str) -> (id: String)
    ensures
        id@ == custom_item_id(item_id@),
{
    if starts_with(item_id, "ctc_") {
        return item_id.to_owned();
    }
    if let Some(suffix) = strip_prefix(item_id, "fc_") {
        if !suffix.as_str().is_empty() {
            return concat("ctc_", suffix.as_str());
        }
    }
    concat("ctc_", hex(stable_hash(item_id), 16).as_str())
}

/// Every public identity of a custom call begins with `ctc_`, and making it
/// public once more changes nothing.
pub proof fn custom_item_id_is_public(item_id: Seq<char>)
    ensures
        crate::text::has_prefix(custom_item_id(item_id), "ctc_"@),
        custom_item_id(custom_item_id(item_id)) == custom_item_id(item_id),
{
    let id = custom_item_id(item_id);
    reveal_strlit("ctc_");
    if !crate::text::has_prefix(item_id, "ctc_"@) {
        assert(id.take(4) =~= "ctc_"@);
    }
}

/// The input of a custom call, read from the arguments of a function call: a
/// JSON text, or the `input` text of an object, whatever else the object holds.
pub open spec fn input_of(arguments: Option<JsonView>) -> Option<Seq<char>> {
    match arguments {
        Some(JsonView::Text(input)) => Some(input),
        Some(JsonView::Object(fields)) => crate::json::text_field(fields, "input"@),
        _ => None,
    }
}

/// The input of a custom call, read from parsed arguments.
pub fn input_from_json(arguments: &Option<Json>) -> (input: Option<String>)
    ensures
        crate::data::opt_view(input) == input_of(crate::data::opt_view(*arguments)),
{
    match arguments {
        Some(Json::Text(input)) => Some(input.clone()),
        Some(Json::Object(fields)) => match fields.get_str("input") {
            Some(input) => Some(input.to_owned()),
            None => None,
        },
        _ => None,
    }
}

/// The input of a custom call, where the arguments hold one.
pub fn try_input_from_arguments(arguments: &str) -> (input: Option<String>)
    ensures
        crate::data::opt_view(input) == input_of(crate::json::parsed_json(arguments@)),
{
    let parsed = Json::parse(arguments);
    input_from_json(&parsed)
}

/// The input of a custom call, or the arguments as they are where they hold none.
pub open spec fn input_or_arguments(arguments: Seq<char>) -> Seq<char> {
    match input_of(crate::json::parsed_json(arguments)) {
        Some(input) => input,
        None => arguments,
    }
}

/// The input of a custom call, or the arguments as they are where they hold none.
pub fn input_from_arguments(arguments: &str) -> (input: String)
    ensures
        input@ == input_or_arguments(arguments@),
{
    match try_input_from_arguments(arguments) {
        Some(input) => input,
        None => arguments.to_owned(),
    }
}

/// The text without whitespace at its ends, where anything is left.
pub open spec fn trimmed(text: Option<Seq<char>>) -> Option<Seq<char>> {
    match text {
        Some(t) if !crate::text::blank(t) => Some(crate::text::trim_text(t)),
        _ => None,
    }
}

/// The text without whitespace at its ends, where anything is left.
pub fn trim_opt(text: Option<&str>) -> (out: Option<String>)
    ensures
        crate::data::opt_view(out) == trimmed(crate::json::str_view(text)),
{
    match text {
        Some(t) => {
            let t = trim(t);
            if t.as_str().is_empty() {
                None
            } else {
                Some(t)
            }
        },
        None => None,
    }
}

/// What the model is told of a declared format.
pub open spec fn format_text(format: JsonView) -> Seq<char> {
    let syntax = crate::json::text_of(crate::json::field(format, "syntax"@));
    let definition = trimmed(crate::json::text_of(crate::json::field(format, "definition"@)));
    if crate::json::text_of(
        crate::json::field(format, "type"@),
    ) == Some("grammar"@) && (syntax == Some(
        "lark"@,
    ) || syntax == Some("regex"@)) && definition is Some {
        "The string must match this "@ + syntax->0 + " grammar exactly:\n"@ + definition->0
    } else {
        "The string must conform to this custom tool format declaration exactly:\n"@
            + crate::json::json_text(format)
    }
}

fn format_description(format: &Json) -> (text: String)
    ensures
        text@ == format_text(format@),
{
    let syntax = format.get_str("syntax");
    let definition = trim_opt(format.get_str("definition"));
    if format.field_is("type", "grammar") {
        if let (Some(s), Some(d)) = (syntax, &definition) {
            if same_text(s, "lark") || same_text(s, "regex") {
                let mut text = "The string must match this ".to_owned();
                text.append(s);
                text.append(" grammar exactly:\n");
                text.append(d.as_str());
                return text;
            }
        }
    }
    let json = format.to_text();
    concat(
        "The string must conform to this custom tool format declaration exactly:\n",
        json.as_str(),
    )
}

/// The parts of what the model is told of a custom tool.
pub open spec fn description_fragments(param: CustomToolParamView) -> Seq<Seq<char>> {
    let description = match trimmed(param.description) {
        Some(d) => seq![d],
        None => Seq::empty(),
    };
    let format = match param.format {
        Some(f) => seq![format_text(f)],
        None => Seq::empty(),
    };
    let extra = if param.extra == Map::<Seq<char>, JsonView>::empty() {
        Seq::empty()
    } else {
        seq![
            "Additional custom tool declaration fields that must be respected:\n"@
                + crate::json::json_text(JsonView::Object(param.extra)),
        ]
    };
    description + seq!["Provide the raw tool input in the `input` string field."@] + format + extra
}

/// What the model is told of a custom tool.
pub fn model_visible_description(param: &CustomToolParam) -> (text: String)
    ensures
        text@ == crate::text::join_text(description_fragments(param@), "\n\n"@),
{
    broadcast use crate::data::views_push;

    let mut fragments: Vec<String> = Vec::new();
    let description: Option<&str> = match &param.description {
        Some(d) => Some(d.as_str()),
        None => None,
    };
    if let Some(d) = trim_opt(description) {
        fragments.push(d);
    }
    fragments.push("Provide the raw tool input in the `input` string field.".to_owned());
    if let Some(format) = &param.format {
        fragments.push(format_description(format));
    }
    if !param.extra.is_empty() {
        let json = Json::Object(param.extra.copied()).to_text();
        fragments.push(
            concat(
                "Additional custom tool declaration fields that must be respected:\n",
                json.as_str(),
            ),
        );
    }
    proof {
        assert(crate::data::views(fragments@) =~= description_fragments(param@));
    }
    join(&fragments, "\n\n")
}

/// The schema of the function that stands for a custom tool: one text, `input`.
pub open spec fn input_schema() -> JsonView {
    let input = Map::<Seq<char>, JsonView>::empty()
        .insert("type"@, JsonView::Text("string"@))
        .insert(
        "description"@,
        JsonView::Text(
            "Raw custom tool input. Follow the tool description and declared format exactly."@,
        ),
    );
    JsonView::Object(
        Map::<Seq<char>, JsonView>::empty().insert("type"@, JsonView::Text("object"@)).insert(
            "properties"@,
            JsonView::Object(
                Map::<Seq<char>, JsonView>::empty().insert("input"@, JsonView::Object(input)),
            ),
        ).insert("required"@, JsonView::Array(seq![JsonView::Text("input"@)])).insert(
            "additionalProperties"@,
            JsonView::Bool(false),
        ),
    )
}

fn custom_input_schema() -> (schema: Json)
    ensures
        schema@ == input_schema(),
{
    let mut input = JsonObject::new();
    input.set_str("type", "string");
    input.set_str(
        "description",
        "Raw custom tool input. Follow the tool description and declared format exactly.",
    );
    let mut properties = JsonObject::new();
    properties.set("input", Json::Object(input));
    let mut required: Vec<Json> = Vec::new();
    required.push(Json::text("input"));
    proof {
        assert(crate::json::array_view(required@) =~= seq![JsonView::Text("input"@)]);
    }
    let mut schema = JsonObject::new();
    schema.set_str("type", "object");
    schema.set("properties", Json::Object(properties));
    schema.set("required", Json::Array(required));
    schema.set("additionalProperties", Json::Bool(false));
    Json::Object(schema)
}

/// The function that stands for a custom tool.
pub open spec fn custom_function(param: CustomToolParamView) -> FunctionToolView {
    FunctionToolView {
        type_: "function"@,
        name: param.name,
        description: Some(crate::text::join_text(description_fragments(param), "\n\n"@)),
        parameters: Some(input_schema()),
        strict: Some(true),
    }
}

/// The fields of a declaration that are not its name, description or format.
pub open spec fn custom_extra(fields: Map<Seq<char>, JsonView>) -> Map<Seq<char>, JsonView> {
    fields.remove("name"@).remove("description"@).remove("format"@)
}

/// A custom declaration read from its fields: `name` is text and not empty,
/// `description` is text, null or absent.
pub open spec fn custom_param_of(value: JsonView) -> Option<CustomToolParamView> {
    match value {
        JsonView::Object(fields) => match crate::json::text_field(fields, "name"@) {
            None => None,
            Some(name) => if name.len() == 0 {
                None
            } else {
                match crate::json::object_field(fields, "description"@) {
                    None | Some(JsonView::Null) => Some(
                        CustomToolParamView {
                            name,
                            description: None,
                            format: non_null(crate::json::object_field(fields, "format"@)),
                            extra: custom_extra(fields),
                        },
                    ),
                    Some(JsonView::Text(description)) => Some(
                        CustomToolParamView {
                            name,
                            description: Some(description),
                            format: non_null(crate::json::object_field(fields, "format"@)),
                            extra: custom_extra(fields),
                        },
                    ),
                    _ => None,
                }
            },
        },
        _ => None,
    }
}

/// A value that is there and not null.
pub open spec fn non_null(value: Option<JsonView>) -> Option<JsonView> {
    match value {
        Some(JsonView::Null) => None,
        v => v,
    }
}

/// A copy of a value that is there and not null.
pub fn copy_non_null(value: Option<&Json>) -> (out: Option<Json>)
    ensures
        crate::data::opt_view(out) == non_null(crate::json::ref_view(value)),
{
    match value {
        Some(v) => if v.is_null() {
            None
        } else {
            Some(v.copy())
        },
        None => None,
    }
}

/// A custom declaration read from its fields.
pub fn custom_param_from_json(value: &Json) -> (out: Option<CustomToolParam>)
    ensures
        crate::data::opt_view(out) == custom_param_of(value@),
{
    let fields = match value {
        Json::Object(fields) => fields,
        _ => {
            return None;
        },
    };
    let name = match fields.get_str("name") {
        Some(name) => name.to_owned(),
        None => {
            return None;
        },
    };
    if name.as_str().is_empty() {
        return None;
    }
    let description: Option<String> = match fields.get("description") {
        None => None,
        Some(Json::Null) => None,
        Some(Json::Text(text)) => Some(text.clone()),
        Some(_) => {
            return None;
        },
    };
    let format = copy_non_null(fields.get("format"));
    let mut extra = fields.copy();
    extra.remove("name");
    extra.remove("description");
    extra.remove("format");
    Some(CustomToolParam { name, description, format, extra })
}

/// A function call of a custom tool, finished, as the client sees it.
pub open spec fn finished_custom_call(call: FunctionToolCallView) -> CustomToolCallView {
    CustomToolCallView {
        id: custom_item_id(call.id),
        status: Some(call.status),
        call_id: call.call_id,
        name: call.name,
        input: input_or_arguments(call.arguments),
    }
}

/// A function call of a custom tool, just begun, as the client sees it.
pub open spec fn started_custom_call(call: FunctionToolCallView) -> CustomToolCallView {
    CustomToolCallView {
        id: custom_item_id(call.id),
        status: Some(MessageStatus::InProgress),
        call_id: call.call_id,
        name: call.name,
        input: Seq::empty(),
    }
}

impl CustomHandler {
    /// The routing type of custom tools.
    pub fn tool_type(&self) -> (tool_type: ToolType)
        ensures
            tool_type == ToolType::Custom,
    {
        ToolType::Custom
    }

    /// The function that stands for a custom tool.
    pub fn to_function_call(param: &CustomToolParam) -> (function: FunctionTool)
        ensures
            function@ == custom_function(param@),
    {
        FunctionTool {
            type_: "function".to_owned(),
            name: param.name.clone(),
            description: Some(model_visible_description(param)),
            parameters: Some(custom_input_schema()),
            strict: Some(true),
        }
    }

    /// Checks a custom declaration given by its fields. `reason` is what is told to be wrong
    /// with fields that are no declaration.
    pub fn validate(&self, param: &Json, reason: &str) -> (out: Result<(), ToolError>)
        ensures
            match custom_param_of(param@) {
                Some(_) => out is Ok,
                None => out matches Err(e) && e@ == ToolErrorView::Config(
                    "invalid custom tool config: "@ + reason@,
                ),
            },
    {
        match custom_param_from_json(param) {
            Some(_) => Ok(()),
            None => Err(ToolError::Config(concat("invalid custom tool config: ", reason))),
        }
    }

    /// The functions that stand for a custom declaration given by its fields:
    /// one where the declaration is valid, else none.
    pub fn normalize(&self, param: &Json) -> (functions: Vec<FunctionTool>)
        ensures
            crate::data::views(functions@) == (match custom_param_of(param@) {
                Some(p) => seq![custom_function(p)],
                None => Seq::empty(),
            }),
    {
        let mut functions: Vec<FunctionTool> = Vec::new();
        proof {
            assert(crate::data::views(functions@) =~= Seq::<FunctionToolView>::empty());
        }
        if let Some(param) = custom_param_from_json(param) {
            functions.push(Self::to_function_call(&param));
            proof {
                assert(crate::data::views(functions@) =~= seq![custom_function(param@)]);
            }
        }
        functions
    }

    /// The public item of a finished call.
    pub fn output_item(call: &FunctionToolCall) -> (item: OutputItem)
        ensures
            item@ == OutputItemView::CustomToolCall(finished_custom_call(call@)),
    {
        OutputItem::CustomToolCall(
            CustomToolCall {
                id: public_item_id(call.id.as_str()),
                status: Some(call.status),
                call_id: call.call_id.clone(),
                name: call.name.clone(),
                input: input_from_arguments(call.arguments.as_str()),
            },
        )
    }

    /// The public item of a call that has begun.
    pub fn started_output_item(call: &FunctionToolCall) -> (item: OutputItem)
        ensures
            item@ == OutputItemView::CustomToolCall(started_custom_call(call@)),
    {
        OutputItem::CustomToolCall(
            CustomToolCall {
                id: public_item_id(call.id.as_str()),
                status: Some(MessageStatus::InProgress),
                call_id: call.call_id.clone(),
                name: call.name.clone(),
                input: String::new(),
            },
        )
    }
}

/// A call has one public identity and one `call_id`, begun or finished.
pub proof fn custom_call_identity_is_stable(call: FunctionToolCallView)
    ensures
        started_custom_call(call).id == finished_custom_call(call).id,
        started_custom_call(call).call_id == finished_custom_call(call).call_id,
        started_custom_call(call).name == finished_custom_call(call).name,
{
}

/// The public declarations of custom tools by the names of the functions that stand for them.
#[derive(Debug)]
pub struct CustomToolMap {
    pub declarations: Table<String, CustomToolParam>,
}

impl View for CustomToolMap {
    type V = Map<Seq<char>, CustomToolParamView>;

    open spec fn view(&self) -> Map<Seq<char>, CustomToolParamView> {
        self.declarations@
    }
}

/// The view of declarations that may be absent.
pub open spec fn custom_map_view(map: Option<&CustomToolMap>) -> Option<
    Map<Seq<char>, CustomToolParamView>,
> {
    match map {
        Some(map) => Some(map@),
        None => None,
    }
}

/// The custom tools among the first `n` declarations, by name.
pub open spec fn customs_declared(tools: Seq<ResponsesToolView>, n: int) -> Map<
    Seq<char>,
    CustomToolParamView,
>
    decreases n,
{
    if n <= 0 {
        Map::empty()
    } else {
        match tools[n - 1] {
            ResponsesToolView::Custom(c) => customs_declared(tools, n - 1).insert(c.name, c),
            _ => customs_declared(tools, n - 1),
        }
    }
}

/// Whether any declaration is of a custom tool.
pub open spec fn declares_a_custom(tools: Seq<ResponsesToolView>) -> bool {
    exists|i: int| 0 <= i < tools.len() && (#[trigger] tools[i]) is Custom
}

/// The custom tools among declarations, where there are any.
pub open spec fn custom_map_of(tools: Seq<ResponsesToolView>) -> Option<
    Map<Seq<char>, CustomToolParamView>,
> {
    if declares_a_custom(tools) {
        Some(customs_declared(tools, tools.len() as int))
    } else {
        None
    }
}

/// The public declaration of a custom tool, where a declaration is of the function that
/// stands for it.
pub open spec fn restored_declaration(
    map: Map<Seq<char>, CustomToolParamView>,
    tool: JsonView,
) -> JsonView {
    match tool {
        JsonView::Object(fields) => match crate::json::text_field(fields, "name"@) {
            Some(name) if crate::json::text_field(fields, "type"@) == Some("function"@)
                && map.contains_key(name) => <ResponsesTool as ToJson>::json_of(
                ResponsesToolView::Custom(map[name]),
            ),
            _ => tool,
        },
        _ => tool,
    }
}

/// The fields of an event with the custom tools that its response declares as they were
/// declared publicly.
pub open spec fn restored_declarations(
    map: Map<Seq<char>, CustomToolParamView>,
    fields: Map<Seq<char>, JsonView>,
) -> Map<Seq<char>, JsonView> {
    match crate::json::object_field(fields, "response"@) {
        Some(JsonView::Object(response)) => match crate::json::object_field(response, "tools"@) {
            Some(JsonView::Array(tools)) => fields.insert(
                "response"@,
                JsonView::Object(
                    response.insert(
                        "tools"@,
                        JsonView::Array(
                            tools.map_values(|tool: JsonView| restored_declaration(map, tool)),
                        ),
                    ),
                ),
            ),
            _ => fields,
        },
        _ => fields,
    }
}

fn restore_declaration(map: &CustomToolMap, tool: &Json) -> (out: Json)
    ensures
        out@ == restored_declaration(map@, tool@),
{
    if let Json::Object(fields) = tool {
        if fields.field_is("type", "function") {
            if let Some(name) = fields.get_str("name") {
                if let Some(custom) = map.declarations.get(&name.to_owned()) {
                    return ResponsesTool::Custom(custom.copied()).to_json();
                }
            }
        }
    }
    tool.copy()
}

fn restore_declarations(map: &CustomToolMap, tools: &Vec<Json>) -> (out: Json)
    ensures
        out@ == JsonView::Array(
            crate::json::array_view(tools@).map_values(
                |tool: JsonView| restored_declaration(map@, tool),
            ),
        ),
{
    let mut out: Vec<Json> = Vec::new();
    let mut i: usize = 0;
    while i < tools.len()
        invariant
            i <= tools@.len(),
            out@.len() == i,
            forall|j: int|
                0 <= j < i ==> (#[trigger] out@[j])@ == restored_declaration(map@, tools@[j]@),
        decreases tools@.len() - i,
    {
        out.push(restore_declaration(map, &tools[i]));
        i = i + 1;
    }
    proof {
        assert(crate::json::array_view(out@) =~= crate::json::array_view(tools@).map_values(
            |tool: JsonView| restored_declaration(map@, tool),
        ));
    }
    Json::Array(out)
}

impl CustomHandler {
    /// The custom tools among declarations, where there are any.
    pub fn build_tool_map(tools: &Vec<ResponsesTool>) -> (map: Option<CustomToolMap>)
        ensures
            (match map {
                Some(m) => Some(m@),
                None => None,
            }) == custom_map_of(crate::data::views(tools@)),
    {
        let ghost all = crate::data::views(tools@);
        let mut declarations: Table<String, CustomToolParam> = Table::new();
        let mut any = false;
        let mut i: usize = 0;
        while i < tools.len()
            invariant
                i <= tools@.len(),
                all == crate::data::views(tools@),
                declarations@ == customs_declared(all, i as int),
                any == (exists|j: int| 0 <= j < i && (#[trigger] all[j]) is Custom),
            decreases tools@.len() - i,
        {
            proof {
                assert(all[i as int] == tools@[i as int]@);
            }
            if let ResponsesTool::Custom(c) = &tools[i] {
                declarations.insert(c.name.clone(), c.copied());
                any = true;
            }
            i = i + 1;
        }
        if any {
            Some(CustomToolMap { declarations })
        } else {
            None
        }
    }

    /// Gives the custom tools that an event's response declares their public declarations
    /// back, and says whether anything changed.
    pub fn restore_response_wire(
        wire: &mut WireEvent,
        map: Option<&CustomToolMap>,
    ) -> (changed: bool)
        ensures
            final(wire)@ == (match custom_map_view(map) {
                Some(known) => WireEventView {
                    rest: restored_declarations(known, old(wire)@.rest),
                    ..old(wire)@
                },
                None => old(wire)@,
            }),
            changed == (final(wire)@ != old(wire)@),
    {
        let known = match map {
            Some(known) => known,
            None => {
                return false;
            },
        };
        let mut rest = wire.rest.copy();
        if let Some(Json::Object(response)) = wire.rest.get("response") {
            if let Some(Json::Array(tools)) = response.get("tools") {
                let mut restored = response.copy();
                restored.set("tools", restore_declarations(known, tools));
                rest.set("response", Json::Object(restored));
            }
        }
        let changed = !JsonObject::same(&rest, &wire.rest);
        wire.rest = rest;
        changed
    }
}

} // verus!
