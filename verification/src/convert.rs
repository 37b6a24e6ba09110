//! Conversion of a request to what an upstream server is sent.
use vstd::prelude::*;

use crate::codex::CodexNamespaceHandler;
use crate::custom::CustomHandler;
use crate::data::{copy_opt, copy_opt_vec, Data};
use crate::error::{config_error, ToolError};
#[allow(unused_imports)]
use crate::error::ToolErrorView;
use crate::items::{
    CustomToolCall, CustomToolCallOutputMessage, FunctionToolResultMessage, InputFunctionToolCall,
    InputItem, InputMessage, InputMessageContent, ResponsesInput,
};
#[allow(unused_imports)]
use crate::items::{
    CustomToolCallOutputMessageView, CustomToolCallView, FunctionToolResultMessageView,
    InputFunctionToolCallView, InputItemView, InputMessageContentView, InputMessageView,
    ResponsesInputView,
};
use crate::json::{Json, JsonObject};
#[allow(unused_imports)]
use crate::json::JsonView;
use crate::payload::{RequestPayload, UpstreamRequest, UpstreamTool};
#[allow(unused_imports)]
use crate::payload::{RequestPayloadView, UpstreamRequestView, UpstreamToolView};
#[allow(unused_imports)]
use crate::readiness::ToolSearchReadiness;
use crate::text::{concat3, same_text};
use crate::tools::{FunctionTool, ResponsesTool, ToolChoice};
#[allow(unused_imports)]
use crate::tools::{AllowedToolView, FunctionToolView, ResponsesToolView, ToolChoiceView};

verus! {

/// The arguments of the function call that stands for a custom call: its input.
pub open spec fn input_arguments(input: Seq<char>) -> Seq<char> {
    crate::json::json_text(
        JsonView::Object(
            Map::<Seq<char>, JsonView>::empty().insert("input"@, JsonView::Text(input)),
        ),
    )
}

/// The function call that stands for a custom call.
pub open spec fn custom_as_function(call: CustomToolCallView) -> InputFunctionToolCallView {
    InputFunctionToolCallView {
        id: Some(call.id),
        call_id: call.call_id,
        name: call.name,
        namespace: None,
        arguments: input_arguments(call.input),
        status: call.status,
    }
}

/// The function call that stands for a custom call. The input read from its arguments is
/// the custom call's own.
pub fn function_of_custom(call: &CustomToolCall) -> (out: InputFunctionToolCall)
    ensures
        out@ == custom_as_function(call@),
        crate::custom::input_or_arguments(out@.arguments) == call@.input,
{
    let mut fields = JsonObject::new();
    fields.set_str("input", call.input.as_str());
    proof {
        reveal_strlit("input");
        reveal_strlit("$serde_json::private::RawValue");
        assert(crate::json::nested_within(JsonView::Text(call.input@), 126));
        assert(crate::json::nested_within(JsonView::Object(fields@), 127));
        assert("input"@.len() != "$serde_json::private::RawValue"@.len());
        assert(!crate::json::holds_key(
            JsonView::Text(call.input@),
            "$serde_json::private::RawValue"@,
            126,
        ));
        assert(!crate::json::holds_key(
            JsonView::Object(fields@),
            "$serde_json::private::RawValue"@,
            127,
        ));
    }
    InputFunctionToolCall {
        id: Some(call.id.clone()),
        call_id: call.call_id.clone(),
        name: call.name.clone(),
        namespace: None,
        arguments: Json::Object(fields).to_text(),
        status: call.status,
    }
}

/// The result of the function call that stands for a custom call: its output where that
/// is a text, else the output's JSON text.
pub open spec fn custom_output_as_function(
    output: CustomToolCallOutputMessageView,
) -> FunctionToolResultMessageView {
    FunctionToolResultMessageView {
        call_id: output.call_id,
        output: match output.output {
            JsonView::Text(t) => t,
            value => crate::json::json_text(value),
        },
    }
}

/// The result of the function call that stands for a custom call.
pub fn function_of_custom_output(
    output: &CustomToolCallOutputMessage,
) -> (out: FunctionToolResultMessage)
    ensures
        out@ == custom_output_as_function(output@),
{
    let text = match &output.output {
        Json::Text(t) => t.clone(),
        value => value.to_text(),
    };
    FunctionToolResultMessage { call_id: output.call_id.clone(), output: text }
}

/// What is stored of an item of the input. An item of no known kind is dropped; a custom
/// call and its output are stored as those of a function.
pub open spec fn stored_item(item: InputItemView) -> Option<InputItemView> {
    match item {
        InputItemView::Unknown => None,
        InputItemView::CustomToolCall(call) => Some(
            InputItemView::FunctionCall(custom_as_function(call)),
        ),
        InputItemView::CustomToolCallOutput(output) => Some(
            InputItemView::FunctionCallOutput(custom_output_as_function(output)),
        ),
        item => Some(item),
    }
}

/// What is stored of the first `n` items.
pub open spec fn stored_items(items: Seq<InputItemView>, n: int) -> Seq<InputItemView>
    decreases n,
{
    if n <= 0 {
        Seq::empty()
    } else {
        match stored_item(items[n - 1]) {
            Some(item) => stored_items(items, n - 1).push(item),
            None => stored_items(items, n - 1),
        }
    }
}

/// What is stored of an input. A text is one message of the user.
pub open spec fn stored_input(input: ResponsesInputView) -> Seq<InputItemView> {
    match input {
        ResponsesInputView::Text(text) => seq![
            InputItemView::Message(
                InputMessageView { role: "user"@, content: InputMessageContentView::Text(text) },
            ),
        ],
        ResponsesInputView::Items(items) => stored_items(items, items.len() as int),
    }
}

fn store_item(item: &InputItem) -> (out: Option<InputItem>)
    ensures
        crate::data::opt_view(out) == stored_item(item@),
{
    match item {
        InputItem::Unknown => None,
        InputItem::CustomToolCall(call) => Some(InputItem::FunctionCall(function_of_custom(call))),
        InputItem::CustomToolCallOutput(output) => Some(
            InputItem::FunctionCallOutput(function_of_custom_output(output)),
        ),
        item => Some(item.copied()),
    }
}

fn store_items(items: &Vec<InputItem>) -> (out: Vec<InputItem>)
    ensures
        crate::data::views(out@) == stored_items(crate::data::views(items@), items@.len() as int),
{
    let mut out: Vec<InputItem> = Vec::new();
    let ghost all = crate::data::views(items@);
    let mut i: usize = 0;
    proof {
        assert(crate::data::views(out@) =~= Seq::empty());
    }
    while i < items.len()
        invariant
            i <= items@.len(),
            all == crate::data::views(items@),
            crate::data::views(out@) == stored_items(all, i as int),
        decreases items@.len() - i,
    {
        if let Some(item) = store_item(&items[i]) {
            proof {
                crate::data::views_push(out@, item);
            }
            out.push(item);
        }
        i = i + 1;
    }
    out
}

/// The input as the model is shown it.
pub open spec fn shown_input(input: ResponsesInputView) -> ResponsesInputView {
    match input {
        ResponsesInputView::Text(t) => ResponsesInputView::Text(t),
        ResponsesInputView::Items(items) => ResponsesInputView::Items(
            stored_items(items, items.len() as int),
        ),
    }
}

impl InputItem {
    /// Whether the item is of no known kind.
    pub fn is_unknown(&self) -> (yes: bool)
        ensures
            yes == (self@ is Unknown),
    {
        match self {
            InputItem::Unknown => true,
            _ => false,
        }
    }
}

impl ResponsesInput {
    /// What is stored of this input.
    pub fn to_items(&self) -> (items: Vec<InputItem>)
        ensures
            crate::data::views(items@) == stored_input(self@),
    {
        match self {
            ResponsesInput::Text(text) => {
                let items = vec![
                    InputItem::Message(
                        InputMessage {
                            role: "user".to_owned(),
                            content: InputMessageContent::Text(text.clone()),
                        },
                    ),
                ];
                proof {
                    assert(crate::data::views(items@) =~= stored_input(self@));
                }
                items
            },
            ResponsesInput::Items(items) => {
                proof {
                    assert(crate::data::views(items@).len() == items@.len());
                }
                store_items(items)
            },
        }
    }

    /// The input as the model is shown it: a text as it is, items as they are stored.
    pub fn model_input(&self) -> (input: ResponsesInput)
        ensures
            input@ == shown_input(self@),
    {
        match self {
            ResponsesInput::Text(text) => ResponsesInput::Text(text.clone()),
            ResponsesInput::Items(items) => {
                proof {
                    assert(crate::data::views(items@).len() == items@.len());
                }
                ResponsesInput::Items(store_items(items))
            },
        }
    }
}

/// The functions that the first `n` declarations are to an upstream server.
pub open spec fn upstream_functions(tools: Seq<ResponsesToolView>, n: int) -> Seq<UpstreamToolView>
    decreases n,
{
    if n <= 0 {
        Seq::empty()
    } else {
        let functions = match tools[n - 1] {
            ResponsesToolView::Custom(c) => seq![crate::custom::custom_function(c)],
            tool => crate::normalize::tool_functions(tool),
        };
        upstream_functions(tools, n - 1) + functions.map_values(
            |f: FunctionToolView| UpstreamToolView::Function(f),
        )
    }
}

fn make_upstream_functions(tools: &Vec<ResponsesTool>) -> (out: Vec<UpstreamTool>)
    ensures
        crate::data::views(out@) == upstream_functions(
            crate::data::views(tools@),
            tools@.len() as int,
        ),
{
    let mut out: Vec<UpstreamTool> = Vec::new();
    let ghost all = crate::data::views(tools@);
    let mut i: usize = 0;
    proof {
        assert(crate::data::views(out@) =~= Seq::empty());
    }
    while i < tools.len()
        invariant
            i <= tools@.len(),
            all == crate::data::views(tools@),
            crate::data::views(out@) == upstream_functions(all, i as int),
        decreases tools@.len() - i,
    {
        proof {
            assert(all[i as int] == tools@[i as int]@);
        }
        let functions = match &tools[i] {
            ResponsesTool::Custom(c) => {
                let functions = vec![CustomHandler::to_function_call(c)];
                proof {
                    assert(crate::data::views(functions@) =~= seq![
                        crate::custom::custom_function(c@),
                    ]);
                }
                functions
            },
            tool => tool.to_function_tools(),
        };
        push_functions(&mut out, &functions);
        i = i + 1;
    }
    out
}

fn push_functions(out: &mut Vec<UpstreamTool>, functions: &Vec<FunctionTool>)
    ensures
        crate::data::views(final(out)@) == crate::data::views(old(out)@) + crate::data::views(
            functions@,
        ).map_values(|f: FunctionToolView| UpstreamToolView::Function(f)),
{
    let ghost start = crate::data::views(out@);
    let ghost all = crate::data::views(functions@);
    let mut i: usize = 0;
    proof {
        assert(start + all.take(0).map_values(|f: FunctionToolView| UpstreamToolView::Function(f))
            =~= start);
    }
    while i < functions.len()
        invariant
            i <= functions@.len(),
            all == crate::data::views(functions@),
            crate::data::views(out@) == start + all.take(i as int).map_values(
                |f: FunctionToolView| UpstreamToolView::Function(f),
            ),
        decreases functions@.len() - i,
    {
        let tool = UpstreamTool::Function(functions[i].copied());
        proof {
            crate::data::views_push(out@, tool);
            assert((start + all.take(i as int).map_values(
                |f: FunctionToolView| UpstreamToolView::Function(f),
            )).push(UpstreamToolView::Function(all[i as int])) =~= start + all.take(
                i + 1,
            ).map_values(|f: FunctionToolView| UpstreamToolView::Function(f)));
        }
        out.push(tool);
        i = i + 1;
    }
    proof {
        assert(all.take(all.len() as int) =~= all);
    }
}

/// The outcome of checking each declaration by itself, from `i` on.
pub open spec fn each_valid(tools: Seq<ResponsesToolView>, i: int) -> Result<(), ToolErrorView>
    decreases tools.len() - i,
{
    if i < 0 || i >= tools.len() {
        Ok(())
    } else {
        match crate::readiness::tool_validity(tools[i]) {
            Err(e) => Err(e),
            Ok(_) => each_valid(tools, i + 1),
        }
    }
}

fn validate_each(tools: &Vec<ResponsesTool>) -> (out: Result<(), ToolError>)
    ensures
        crate::error::outcome(out) == each_valid(crate::data::views(tools@), 0),
{
    let ghost all = crate::data::views(tools@);
    let mut i: usize = 0;
    while i < tools.len()
        invariant
            i <= tools@.len(),
            all == crate::data::views(tools@),
            each_valid(all, 0) == each_valid(all, i as int),
        decreases tools@.len() - i,
    {
        if let Err(e) = tools[i].validate() {
            return Err(e);
        }
        i = i + 1;
    }
    Ok(())
}

/// Whether a custom tool with a name is declared.
pub open spec fn declares_custom(tools: Seq<ResponsesToolView>, name: Seq<char>) -> bool {
    exists|i: int| 0 <= i < tools.len() && is_custom_named(#[trigger] tools[i], name)
}

/// Whether a declaration is of a custom tool with a name.
pub open spec fn is_custom_named(tool: ResponsesToolView, name: Seq<char>) -> bool {
    match tool {
        ResponsesToolView::Custom(c) => c.name == name,
        _ => false,
    }
}

fn has_custom(declared: &Option<Vec<ResponsesTool>>, name: &str) -> (yes: bool)
    ensures
        yes == declares_custom(
            crate::readiness::declared_tools(crate::data::opt_views(*declared)),
            name@,
        ),
{
    let tools = match declared {
        Some(t) => t,
        None => {
            return false;
        },
    };
    let ghost all = crate::data::views(tools@);
    let mut i: usize = 0;
    while i < tools.len()
        invariant
            i <= tools@.len(),
            all == crate::data::views(tools@),
            all == crate::readiness::declared_tools(crate::data::opt_views(*declared)),
            forall|j: int| 0 <= j < i ==> !is_custom_named(#[trigger] all[j], name@),
        decreases tools@.len() - i,
    {
        proof {
            assert(all[i as int] == tools@[i as int]@);
        }
        if let ResponsesTool::Custom(c) = &tools[i] {
            if same_text(c.name.as_str(), name) {
                proof {
                    assert(is_custom_named(all[i as int], name@));
                }
                return true;
            }
        }
        i = i + 1;
    }
    false
}

/// The error of a choice of a custom tool that is not declared.
pub open spec fn no_custom(name: Seq<char>) -> ToolErrorView {
    ToolErrorView::Config(
        "tool_choice selects custom tool '"@ + name + "', but no matching custom tool is declared"@,
    )
}

fn no_matching_custom(name: &str) -> (error: ToolError)
    ensures
        error@ == no_custom(name@),
{
    ToolError::Config(
        concat3(
            "tool_choice selects custom tool '",
            name,
            "', but no matching custom tool is declared",
        ),
    )
}

/// The outcome of checking the allowed custom tools from `i` on.
pub open spec fn allowed_valid(
    declared: Seq<ResponsesToolView>,
    allowed: Seq<AllowedToolView>,
    i: int,
) -> Result<(), ToolErrorView>
    decreases allowed.len() - i,
{
    if i < 0 || i >= allowed.len() {
        Ok(())
    } else if allowed[i].type_ == "custom"@ && !declares_custom(declared, allowed[i].name) {
        Err(no_custom(allowed[i].name))
    } else {
        allowed_valid(declared, allowed, i + 1)
    }
}

/// The outcome of checking that a choice of a custom tool is of a declared one.
pub open spec fn choice_valid(declared: Seq<ResponsesToolView>, choice: ToolChoiceView) -> Result<
    (),
    ToolErrorView,
> {
    match choice {
        ToolChoiceView::Custom { name } => if declares_custom(declared, name) {
            Ok(())
        } else {
            Err(no_custom(name))
        },
        ToolChoiceView::AllowedTools { mode, tools } => allowed_valid(declared, tools, 0),
        _ => Ok(()),
    }
}

impl CustomHandler {
    /// Refuses a choice of a custom tool that is not declared.
    pub fn validate_tool_choice(
        tools: &Option<Vec<ResponsesTool>>,
        choice: &ToolChoice,
    ) -> (out: Result<
        (),
        ToolError,
    >)
        ensures
            crate::error::outcome(out) == choice_valid(
                crate::readiness::declared_tools(crate::data::opt_views(*tools)),
                choice@,
            ),
    {
        let ghost declared = crate::readiness::declared_tools(crate::data::opt_views(*tools));
        match choice {
            ToolChoice::Custom { name } => if has_custom(tools, name.as_str()) {
                Ok(())
            } else {
                Err(no_matching_custom(name.as_str()))
            },
            ToolChoice::AllowedTools { mode, tools: allowed } => {
                let ghost all = crate::data::views(allowed@);
                let mut i: usize = 0;
                while i < allowed.len()
                    invariant
                        i <= allowed@.len(),
                        all == crate::data::views(allowed@),
                        declared == crate::readiness::declared_tools(
                            crate::data::opt_views(*tools),
                        ),
                        choice@ == (ToolChoiceView::AllowedTools { mode: *mode, tools: all }),
                        allowed_valid(declared, all, 0) == allowed_valid(declared, all, i as int),
                    decreases allowed@.len() - i,
                {
                    proof {
                        assert(all[i as int] == allowed@[i as int]@);
                    }
                    if same_text(allowed[i].type_.as_str(), "custom") && !has_custom(
                        tools,
                        allowed[i].name.as_str(),
                    ) {
                        return Err(no_matching_custom(allowed[i].name.as_str()));
                    }
                    i = i + 1;
                }
                Ok(())
            },
            _ => Ok(()),
        }
    }
}

/// Whether any declaration is of a tool that the gateway runs.
pub open spec fn declares_built_in(tools: Seq<ResponsesToolView>) -> bool {
    exists|i: int| 0 <= i < tools.len() && crate::tools::gateway_owned_tool(#[trigger] tools[i])
}

/// What an upstream server is sent for a request that needs no more preparation.
pub open spec fn upstream_of(
    r: RequestPayloadView,
    stream: bool,
) -> Result<UpstreamRequestView, ToolErrorView> {
    let declared = crate::readiness::declared_tools(r.tools);
    let built_in = declares_built_in(declared);
    match crate::readiness::readiness(declared, r.input, r.parallel_tool_calls) {
        Err(e) => Err(e),
        Ok(ToolSearchReadiness::StatePreparationRequired) => Err(
            ToolErrorView::Config(
                "tool_search requests require prepared request-scoped state before upstream conversion"@,
            ),
        ),
        Ok(ToolSearchReadiness::Inactive) => if built_in && r.parallel_tool_calls == Some(true) {
            Err(
                ToolErrorView::Config(
                    "parallel_tool_calls must be false when using built-in tools"@,
                ),
            )
        } else {
            match crate::codex::namespace_map_of(r.tools) {
                Err(e) => Err(e),
                Ok(map) => match each_valid(crate::codex::renamed_tools(declared), 0) {
                    Err(e) => Err(e),
                    Ok(_) => {
                        let choice = crate::codex::resolved_choice(map, r.tool_choice);
                        match choice_valid(declared, choice) {
                            Err(e) => Err(e),
                            Ok(_) => Ok(
                                UpstreamRequestView {
                                    model: r.model,
                                    input: crate::codex::resolved_input(map, shown_input(r.input)),
                                    stream,
                                    instructions: r.instructions,
                                    tools: shown_tools(declared),
                                    tool_choice: Some(choice),
                                    include_fields: r.include_fields,
                                    temperature: r.temperature,
                                    top_p: r.top_p,
                                    max_output_tokens: r.max_output_tokens,
                                    truncation: r.truncation,
                                    metadata: r.metadata,
                                    parallel_tool_calls: if built_in {
                                        Some(false)
                                    } else {
                                        r.parallel_tool_calls
                                    },
                                    cache_salt: r.cache_salt,
                                },
                            ),
                        }
                    },
                },
            }
        },
    }
}

/// The functions that an upstream server is shown; nothing where there is none.
pub open spec fn shown_tools(declared: Seq<ResponsesToolView>) -> Option<Seq<UpstreamToolView>> {
    let renamed = crate::codex::renamed_tools(declared);
    let functions = upstream_functions(renamed, renamed.len() as int);
    if functions.len() == 0 {
        None
    } else {
        Some(functions)
    }
}

impl RequestPayload {
    /// Whether any declaration is of a tool that the gateway runs.
    pub fn declares_built_in_tool(&self) -> (yes: bool)
        ensures
            yes == declares_built_in(crate::readiness::declared_tools(self@.tools)),
    {
        let tools = match &self.tools {
            Some(t) => t,
            None => {
                return false;
            },
        };
        let ghost all = crate::data::views(tools@);
        let mut i: usize = 0;
        while i < tools.len()
            invariant
                i <= tools@.len(),
                all == crate::data::views(tools@),
                all == crate::readiness::declared_tools(self@.tools),
                forall|j: int|
                    0 <= j < i ==> !crate::tools::gateway_owned_tool(#[trigger] all[j]),
            decreases tools@.len() - i,
        {
            proof {
                assert(all[i as int] == tools@[i as int]@);
            }
            if tools[i].is_gateway_owned() {
                return true;
            }
            i = i + 1;
        }
        false
    }

    /// What an upstream server is sent for this request.
    ///
    /// Members of namespaces get their flat names; namespaces, tools that the gateway
    /// runs and custom tools are shown as functions. Tools that the gateway runs are
    /// called one at a time.
    pub fn to_upstream_request(&self, stream: bool) -> (out: Result<UpstreamRequest, ToolError>)
        ensures
            crate::error::outcome(out) == upstream_of(self@, stream),
    {
        let none: Vec<ResponsesTool> = Vec::new();
        proof {
            assert(crate::data::views(none@) =~= Seq::empty());
        }
        if let Err(e) = self.ensure_tool_search_ready() {
            return Err(e);
        }
        let built_in = self.declares_built_in_tool();
        if built_in && self.parallel_tool_calls == Some(true) {
            return Err(config_error("parallel_tool_calls must be false when using built-in tools"));
        }
        let parallel_tool_calls = if built_in {
            Some(false)
        } else {
            self.parallel_tool_calls
        };
        let declared = match &self.tools {
            Some(t) => t,
            None => &none,
        };
        let map = match CodexNamespaceHandler.build_namespace_map(self.tools.as_ref()) {
            Ok(map) => map,
            Err(e) => {
                return Err(e);
            },
        };
        let renamed = CodexNamespaceHandler::resolve_namespace_members_after_validation(declared);
        if let Err(e) = validate_each(&renamed) {
            return Err(e);
        }
        let functions = make_upstream_functions(&renamed);
        proof {
            assert(crate::data::views(renamed@).len() == renamed@.len());
            assert(crate::data::views(functions@).len() == functions@.len());
        }
        let tools = if functions.len() == 0 {
            None
        } else {
            Some(functions)
        };
        let shown = self.input.model_input();
        let input = CodexNamespaceHandler.resolve_input(map.as_ref(), &shown);
        let choice = CodexNamespaceHandler.resolve_tool_choice(map.as_ref(), &self.tool_choice);
        if let Err(e) = CustomHandler::validate_tool_choice(&self.tools, &choice) {
            return Err(e);
        }
        Ok(
            UpstreamRequest {
                model: self.model.clone(),
                input,
                stream,
                instructions: copy_opt(&self.instructions),
                tools,
                tool_choice: Some(choice),
                include_fields: copy_opt_vec(&self.include_fields),
                temperature: copy_opt(&self.temperature),
                top_p: copy_opt(&self.top_p),
                max_output_tokens: self.max_output_tokens,
                truncation: copy_opt(&self.truncation),
                metadata: copy_opt(&self.metadata),
                parallel_tool_calls,
                cache_salt: copy_opt(&self.cache_salt),
            },
        )
    }
}

/// A request that declares a tool which the gateway runs is refused where it asks for
/// parallel calls, and is otherwise sent on with parallel calls switched off.
pub proof fn built_in_tools_are_called_one_by_one(r: RequestPayloadView, stream: bool)
    requires
        declares_built_in(crate::readiness::declared_tools(r.tools)),
    ensures
        r.parallel_tool_calls == Some(true) ==> upstream_of(r, stream) is Err,
        upstream_of(r, stream) matches Ok(sent) ==> sent.parallel_tool_calls == Some(false),
{
}

/// What a request says of the model, and what it does not leave to the gateway, reaches the
/// upstream server as it was said; a list of tools is sent only where it holds one.
pub proof fn requests_are_passed_on(r: RequestPayloadView, stream: bool)
    ensures
        upstream_of(r, stream) matches Ok(sent) ==> {
            &&& sent.model == r.model
            &&& sent.stream == stream
            &&& sent.instructions == r.instructions
            &&& sent.include_fields == r.include_fields
            &&& sent.temperature == r.temperature
            &&& sent.top_p == r.top_p
            &&& sent.max_output_tokens == r.max_output_tokens
            &&& sent.truncation == r.truncation
            &&& sent.metadata == r.metadata
            &&& sent.cache_salt == r.cache_salt
            &&& sent.tools matches Some(tools) ==> tools.len() > 0
        },
{
}

} // verus!
