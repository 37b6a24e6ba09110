//! Whether a request uses tool search, and whether its declarations and replayed
//! items have the required shape.
use vstd::prelude::*;

#[allow(unused_imports)]
use crate::error::{config_error, ToolError, ToolErrorView};
use crate::items::{InputItem, ResponsesInput};
#[allow(unused_imports)]
use crate::items::{InputItemView, ResponsesInputView};
use crate::payload::RequestPayload;
use crate::text::{concat3, is_blank, same_text};
use crate::tools::{CodexNamespaceMember, CodexNamespaceToolParam, ResponsesTool};
#[allow(unused_imports)]
use crate::tools::{CodexNamespaceMemberView, CodexNamespaceToolParamView, ResponsesToolView};

verus! {

/// What a request needs before it can be sent upstream.
#[derive(Debug, Clone, Copy, PartialEq, Eq, Structural)]
pub enum ToolSearchReadiness {
    Inactive,
    StatePreparationRequired,
}

/// Whether a declaration makes tool search active: it declares the search, or
/// defers the schema of a function.
pub open spec fn activates_tool_search(tool: ResponsesToolView) -> bool {
    match tool {
        ResponsesToolView::ToolSearch(_) => true,
        ResponsesToolView::Function(f) => f.defer_loading == Some(true),
        ResponsesToolView::Mcp(m) => m.defer_loading == Some(true),
        ResponsesToolView::Namespace(n) => exists|i: int|
            0 <= i < n.tools.len() && #[trigger] defers_member(n.tools[i]),
        _ => false,
    }
}

/// Whether a member's schema is deferred.
pub open spec fn defers_member(member: CodexNamespaceMemberView) -> bool {
    member matches CodexNamespaceMemberView::Function(f) && f.defer_loading == Some(true)
}

/// Whether a declaration makes tool search active.
pub fn tool_activates_tool_search(tool: &ResponsesTool) -> (yes: bool)
    ensures
        yes == activates_tool_search(tool@),
{
    match tool {
        ResponsesTool::ToolSearch(_) => true,
        ResponsesTool::Function(f) => f.defer_loading == Some(true),
        ResponsesTool::Mcp(m) => m.defer_loading == Some(true),
        ResponsesTool::Namespace(n) => {
            let mut i: usize = 0;
            while i < n.tools.len()
                invariant
                    i <= n.tools@.len(),
                    *tool == ResponsesTool::Namespace(*n),
                    forall|j: int| 0 <= j < i ==> !defers_member(#[trigger] n@.tools[j]),
                decreases n.tools@.len() - i,
            {
                if let CodexNamespaceMember::Function(f) = &n.tools[i] {
                    if f.defer_loading == Some(true) {
                        proof {
                            assert(defers_member(n@.tools[i as int]));
                        }
                        return true;
                    }
                }
                i = i + 1;
            }
            false
        },
        _ => false,
    }
}

/// Whether a declaration takes the name that tool search needs.
pub open spec fn takes_reserved_name(tool: ResponsesToolView) -> bool {
    match tool {
        ResponsesToolView::Function(f) => f.name == "tool_search"@,
        ResponsesToolView::Custom(c) => c.name == "tool_search"@,
        ResponsesToolView::Namespace(n) => n.name == "tool_search"@,
        _ => false,
    }
}

/// Whether a declaration takes the name that tool search needs.
pub fn has_reserved_tool_search_name(tool: &ResponsesTool) -> (yes: bool)
    ensures
        yes == takes_reserved_name(tool@),
{
    match tool {
        ResponsesTool::Function(f) => same_text(f.name.as_str(), "tool_search"),
        ResponsesTool::Custom(c) => same_text(c.name.as_str(), "tool_search"),
        ResponsesTool::Namespace(n) => same_text(n.name.as_str(), "tool_search"),
        _ => false,
    }
}

/// The outcome of checking one declaration by itself: a custom tool's format
/// must leave its text free, since nothing upstream constrains it.
pub open spec fn tool_validity(tool: ResponsesToolView) -> Result<(), ToolErrorView> {
    match tool {
        ResponsesToolView::Custom(c) => match c.format {
            Some(format) if crate::json::text_of(crate::json::field(format, "type"@)) != Some(
                "text"@,
            ) => Err(
                ToolErrorView::Config(
                    "custom tool '"@ + c.name
                        + "' declares a format, and the gateway cannot preserve constrained decoding"@,
                ),
            ),
            _ => Ok(()),
        },
        _ => Ok(()),
    }
}

impl ResponsesTool {
    /// Checks this declaration by itself.
    pub fn validate(&self) -> (out: Result<(), ToolError>)
        ensures
            crate::error::outcome(out) == tool_validity(self@),
    {
        if let ResponsesTool::Custom(c) = self {
            if let Some(format) = &c.format {
                if !format.field_is("type", "text") {
                    return Err(
                        ToolError::Config(
                            concat3(
                                "custom tool '",
                                c.name.as_str(),
                                "' declares a format, and the gateway cannot preserve constrained decoding",
                            ),
                        ),
                    );
                }
            }
        }
        Ok(())
    }
}

/// The outcome of checking the members of a namespace that tool search may load.
pub open spec fn namespace_validity(
    namespace: CodexNamespaceToolParamView,
) -> Result<(), ToolErrorView> {
    if namespace.tools.len() == 0 {
        Err(
            ToolErrorView::Config(
                "tool-search namespaces must contain at least one function member"@,
            ),
        )
    } else if exists|i: int|
        0 <= i < namespace.tools.len() && (#[trigger] namespace.tools[i]) is Unknown {
        Err(ToolErrorView::Config("tool-search namespaces may contain only function members"@))
    } else {
        Ok(())
    }
}

/// Checks the members of a namespace that tool search may load.
pub fn validate_tool_search_namespace(namespace: &CodexNamespaceToolParam) -> (out: Result<
    (),
    ToolError,
>)
    ensures
        crate::error::outcome(out) == namespace_validity(namespace@),
{
    if namespace.tools.len() == 0 {
        return Err(
            config_error("tool-search namespaces must contain at least one function member"),
        );
    }
    let mut i: usize = 0;
    while i < namespace.tools.len()
        invariant
            i <= namespace.tools@.len(),
            namespace.tools@.len() > 0,
            forall|j: int| 0 <= j < i ==> !((#[trigger] namespace@.tools[j]) is Unknown),
        decreases namespace.tools@.len() - i,
    {
        if let CodexNamespaceMember::Unknown = &namespace.tools[i] {
            proof {
                assert(namespace@.tools[i as int] is Unknown);
            }
            return Err(config_error("tool-search namespaces may contain only function members"));
        }
        i = i + 1;
    }
    Ok(())
}

/// The outcome of checking a declaration of a request that uses tool search.
pub open spec fn declaration_validity(tool: ResponsesToolView) -> Result<(), ToolErrorView> {
    match tool_validity(tool) {
        Err(e) => Err(e),
        Ok(()) => {
            let members = match tool {
                ResponsesToolView::Namespace(n) => namespace_validity(n),
                _ => Ok(()),
            };
            match members {
                Err(e) => Err(e),
                Ok(()) => if takes_reserved_name(tool) {
                    Err(
                        ToolErrorView::Config(
                            "model-visible tool name 'tool_search' is reserved while tool search is active"@,
                        ),
                    )
                } else {
                    Ok(())
                },
            }
        },
    }
}

fn validate_declaration(tool: &ResponsesTool) -> (out: Result<(), ToolError>)
    ensures
        crate::error::outcome(out) == declaration_validity(tool@),
{
    match tool.validate() {
        Err(e) => {
            return Err(e);
        },
        Ok(()) => {},
    }
    if let ResponsesTool::Namespace(n) = tool {
        match validate_tool_search_namespace(n) {
            Err(e) => {
                return Err(e);
            },
            Ok(()) => {},
        }
    }
    if has_reserved_tool_search_name(tool) {
        return Err(
            config_error(
                "model-visible tool name 'tool_search' is reserved while tool search is active",
            ),
        );
    }
    Ok(())
}

/// The outcome of checking a definition that a tool search returned.
pub open spec fn loaded_validity(tool: ResponsesToolView) -> Result<(), ToolErrorView> {
    let shape = match tool {
        ResponsesToolView::Function(_) => Ok(()),
        ResponsesToolView::Mcp(_) => Ok(()),
        ResponsesToolView::Namespace(n) => namespace_validity(n),
        _ => Err(ToolErrorView::Config("tool_search_output contains an unsupported tool type"@)),
    };
    match shape {
        Err(e) => Err(e),
        Ok(()) => match tool_validity(tool) {
            Err(e) => Err(e),
            Ok(()) => if takes_reserved_name(tool) {
                Err(
                    ToolErrorView::Config(
                        "loaded model-visible tool name 'tool_search' is reserved"@,
                    ),
                )
            } else {
                Ok(())
            },
        },
    }
}

/// Checks a definition that a tool search returned.
pub fn validate_loaded_tool(tool: &ResponsesTool) -> (out: Result<(), ToolError>)
    ensures
        crate::error::outcome(out) == loaded_validity(tool@),
{
    match tool {
        ResponsesTool::Function(_) | ResponsesTool::Mcp(_) => {},
        ResponsesTool::Namespace(n) => {
            match validate_tool_search_namespace(n) {
                Err(e) => {
                    return Err(e);
                },
                Ok(()) => {},
            }
        },
        _ => {
            return Err(config_error("tool_search_output contains an unsupported tool type"));
        },
    }
    match tool.validate() {
        Err(e) => {
            return Err(e);
        },
        Ok(()) => {},
    }
    if has_reserved_tool_search_name(tool) {
        return Err(config_error("loaded model-visible tool name 'tool_search' is reserved"));
    }
    Ok(())
}

/// The error of the first definition, from `i` on, that is not valid.
pub open spec fn loaded_tools_validity(
    tools: Seq<ResponsesToolView>,
    i: int,
) -> Result<(), ToolErrorView>
    decreases tools.len() - i,
{
    if i < 0 || i >= tools.len() {
        Ok(())
    } else {
        match loaded_validity(tools[i]) {
            Err(e) => Err(e),
            Ok(()) => loaded_tools_validity(tools, i + 1),
        }
    }
}

/// The outcome of checking one input item.
pub open spec fn item_validity(item: InputItemView) -> Result<(), ToolErrorView> {
    match item {
        InputItemView::ToolSearchCall(call) => if crate::text::blank(call.id) {
            Err(ToolErrorView::Config("tool_search_call id must not be blank"@))
        } else if crate::text::blank(call.call_id) {
            Err(ToolErrorView::Config("tool_search_call call_id must not be blank"@))
        } else {
            Ok(())
        },
        InputItemView::ToolSearchOutput(output) => if crate::text::blank(output.call_id) {
            Err(ToolErrorView::Config("tool_search_output call_id must not be blank"@))
        } else {
            loaded_tools_validity(output.tools, 0)
        },
        _ => Ok(()),
    }
}

fn validate_item(item: &InputItem) -> (out: Result<(), ToolError>)
    ensures
        crate::error::outcome(out) == item_validity(item@),
{
    match item {
        InputItem::ToolSearchCall(call) => {
            if is_blank(call.id.as_str()) {
                return Err(config_error("tool_search_call id must not be blank"));
            }
            if is_blank(call.call_id.as_str()) {
                return Err(config_error("tool_search_call call_id must not be blank"));
            }
            Ok(())
        },
        InputItem::ToolSearchOutput(output) => {
            if is_blank(output.call_id.as_str()) {
                return Err(config_error("tool_search_output call_id must not be blank"));
            }
            let ghost tools = crate::data::views(output.tools@);
            let mut i: usize = 0;
            while i < output.tools.len()
                invariant
                    i <= output.tools@.len(),
                    tools == crate::data::views(output.tools@),
                    *item == InputItem::ToolSearchOutput(*output),
                    !crate::text::blank(output.call_id@),
                    loaded_tools_validity(tools, 0) == loaded_tools_validity(tools, i as int),
                decreases output.tools@.len() - i,
            {
                match validate_loaded_tool(&output.tools[i]) {
                    Err(e) => {
                        return Err(e);
                    },
                    Ok(()) => {},
                }
                i = i + 1;
            }
            Ok(())
        },
        _ => Ok(()),
    }
}

/// The error of the first declaration, from `i` on, that is not valid.
pub open spec fn declarations_validity(
    tools: Seq<ResponsesToolView>,
    i: int,
) -> Result<(), ToolErrorView>
    decreases tools.len() - i,
{
    if i < 0 || i >= tools.len() {
        Ok(())
    } else {
        match declaration_validity(tools[i]) {
            Err(e) => Err(e),
            Ok(()) => declarations_validity(tools, i + 1),
        }
    }
}

/// The error of the first item, from `i` on, that is not valid.
pub open spec fn items_validity(items: Seq<InputItemView>, i: int) -> Result<(), ToolErrorView>
    decreases items.len() - i,
{
    if i < 0 || i >= items.len() {
        Ok(())
    } else {
        match item_validity(items[i]) {
            Err(e) => Err(e),
            Ok(()) => items_validity(items, i + 1),
        }
    }
}

/// Whether an input item belongs to a tool search.
pub open spec fn is_search_item(item: InputItemView) -> bool {
    item is ToolSearchCall || item is ToolSearchOutput
}

/// Whether an input holds an item of a tool search.
pub open spec fn input_has_search(input: ResponsesInputView) -> bool {
    match input {
        ResponsesInputView::Text(_) => false,
        ResponsesInputView::Items(items) => has_search_item(items),
    }
}

/// Whether any of the items belongs to a tool search.
pub open spec fn has_search_item(items: Seq<InputItemView>) -> bool {
    exists|i: int| 0 <= i < items.len() && is_search_item(#[trigger] items[i])
}

impl ResponsesInput {
    /// Whether this input holds an item of a tool search.
    pub fn contains_tool_search_state(&self) -> (yes: bool)
        ensures
            yes == input_has_search(self@),
    {
        match self {
            ResponsesInput::Text(_) => false,
            ResponsesInput::Items(items) => {
                let mut i: usize = 0;
                while i < items.len()
                    invariant
                        i <= items@.len(),
                        *self == ResponsesInput::Items(*items),
                        forall|j: int|
                            0 <= j < i ==> !is_search_item(
                                #[trigger] crate::data::views(items@)[j],
                            ),
                    decreases items@.len() - i,
                {
                    match &items[i] {
                        InputItem::ToolSearchCall(_) | InputItem::ToolSearchOutput(_) => {
                            proof {
                                let all = crate::data::views(items@);
                                assert(self@ == ResponsesInputView::Items(all));
                                assert(is_search_item(all[i as int]));
                                assert(has_search_item(all));
                            }
                            return true;
                        },
                        _ => {},
                    }
                    i = i + 1;
                }
                false
            },
        }
    }
}

/// The items of an input; a text has none.
pub open spec fn input_items(input: ResponsesInputView) -> Seq<InputItemView> {
    match input {
        ResponsesInputView::Text(_) => Seq::empty(),
        ResponsesInputView::Items(items) => items,
    }
}

/// The declarations of a request; none where it gives no list.
pub open spec fn declared_tools(tools: Option<Seq<ResponsesToolView>>) -> Seq<ResponsesToolView> {
    match tools {
        Some(tools) => tools,
        None => Seq::empty(),
    }
}

/// The number of `tool_search` declarations among the first `n`.
pub open spec fn search_declarations(tools: Seq<ResponsesToolView>, n: int) -> nat
    decreases n,
{
    if n <= 0 {
        0
    } else {
        search_declarations(tools, n - 1) + (if tools[n - 1] is ToolSearch {
            1nat
        } else {
            0nat
        })
    }
}

/// Whether a request uses tool search: by its history, or by a declaration.
pub open spec fn search_active(tools: Seq<ResponsesToolView>, input: ResponsesInputView) -> bool {
    input_has_search(input) || exists|i: int|
        0 <= i < tools.len() && activates_tool_search(#[trigger] tools[i])
}

/// What a request needs, or the first violation of what tool search requires.
pub open spec fn readiness(
    tools: Seq<ResponsesToolView>,
    input: ResponsesInputView,
    parallel_tool_calls: Option<bool>,
) -> Result<ToolSearchReadiness, ToolErrorView> {
    if !search_active(tools, input) {
        Ok(ToolSearchReadiness::Inactive)
    } else if search_declarations(tools, tools.len() as int) > 1 {
        Err(ToolErrorView::Config("tool search accepts at most one tool_search declaration"@))
    } else if parallel_tool_calls == Some(true) {
        Err(ToolErrorView::Config("parallel_tool_calls must be false when tool search is active"@))
    } else {
        match declarations_validity(tools, 0) {
            Err(e) => Err(e),
            Ok(()) => match items_validity(input_items(input), 0) {
                Err(e) => Err(e),
                Ok(()) => Ok(ToolSearchReadiness::StatePreparationRequired),
            },
        }
    }
}

fn any_activates(tools: &Vec<ResponsesTool>) -> (yes: bool)
    ensures
        yes == (exists|i: int|
            0 <= i < tools@.len() && activates_tool_search(#[trigger] crate::data::views(tools@)[i])),
{
    let mut i: usize = 0;
    while i < tools.len()
        invariant
            i <= tools@.len(),
            forall|j: int|
                0 <= j < i ==> !activates_tool_search(#[trigger] crate::data::views(tools@)[j]),
        decreases tools@.len() - i,
    {
        if tool_activates_tool_search(&tools[i]) {
            proof {
                assert(activates_tool_search(crate::data::views(tools@)[i as int]));
            }
            return true;
        }
        i = i + 1;
    }
    false
}

fn count_search_declarations(tools: &Vec<ResponsesTool>) -> (n: usize)
    ensures
        n == search_declarations(crate::data::views(tools@), tools@.len() as int),
{
    let mut n: usize = 0;
    let mut i: usize = 0;
    while i < tools.len()
        invariant
            i <= tools@.len(),
            n <= i,
            n == search_declarations(crate::data::views(tools@), i as int),
        decreases tools@.len() - i,
    {
        if let ResponsesTool::ToolSearch(_) = &tools[i] {
            n = n + 1;
        }
        i = i + 1;
    }
    n
}

fn declarations_readiness(tools: &Vec<ResponsesTool>) -> (out: Result<(), ToolError>)
    ensures
        crate::error::outcome(out) == declarations_validity(crate::data::views(tools@), 0),
{
    let mut i: usize = 0;
    while i < tools.len()
        invariant
            i <= tools@.len(),
            declarations_validity(crate::data::views(tools@), 0) == declarations_validity(
                crate::data::views(tools@),
                i as int,
            ),
        decreases tools@.len() - i,
    {
        match validate_declaration(&tools[i]) {
            Err(e) => {
                return Err(e);
            },
            Ok(()) => {},
        }
        i = i + 1;
    }
    Ok(())
}

fn items_readiness(items: &Vec<InputItem>) -> (out: Result<(), ToolError>)
    ensures
        crate::error::outcome(out) == items_validity(crate::data::views(items@), 0),
{
    let mut i: usize = 0;
    while i < items.len()
        invariant
            i <= items@.len(),
            items_validity(crate::data::views(items@), 0) == items_validity(
                crate::data::views(items@),
                i as int,
            ),
        decreases items@.len() - i,
    {
        match validate_item(&items[i]) {
            Err(e) => {
                return Err(e);
            },
            Ok(()) => {},
        }
        i = i + 1;
    }
    Ok(())
}

/// The view of a readiness.
pub open spec fn readiness_outcome(out: Result<ToolSearchReadiness, ToolError>) -> Result<
    ToolSearchReadiness,
    ToolErrorView,
> {
    match out {
        Ok(r) => Ok(r),
        Err(e) => Err(e@),
    }
}

impl RequestPayload {
    /// Whether this request holds items of a tool search, a search declaration, or
    /// a declaration whose schema is deferred.
    pub fn contains_tool_search_state(&self) -> (yes: bool)
        ensures
            yes == search_active(declared_tools(self@.tools), self@.input),
    {
        if self.input.contains_tool_search_state() {
            return true;
        }
        match &self.tools {
            Some(tools) => any_activates(tools),
            None => false,
        }
    }

    /// What this request needs before it can be sent upstream, or the first
    /// violation of what tool search requires.
    pub fn tool_search_readiness(&self) -> (out: Result<ToolSearchReadiness, ToolError>)
        ensures
            readiness_outcome(out) == readiness(
                declared_tools(self@.tools),
                self@.input,
                self@.parallel_tool_calls,
            ),
    {
        self.tool_search_readiness_for_input(&self.input)
    }

    /// What this request needs before it can be sent upstream with `input`.
    pub fn tool_search_readiness_for_input(&self, input: &ResponsesInput) -> (out: Result<
        ToolSearchReadiness,
        ToolError,
    >)
        ensures
            readiness_outcome(out) == readiness(
                declared_tools(self@.tools),
                input@,
                self@.parallel_tool_calls,
            ),
    {
        let none: Vec<ResponsesTool> = Vec::new();
        proof {
            assert(crate::data::views(none@) =~= Seq::empty());
        }
        let tools = match &self.tools {
            Some(tools) => tools,
            None => &none,
        };
        if !(input.contains_tool_search_state() || any_activates(tools)) {
            return Ok(ToolSearchReadiness::Inactive);
        }
        if count_search_declarations(tools) > 1 {
            return Err(config_error("tool search accepts at most one tool_search declaration"));
        }
        if self.parallel_tool_calls == Some(true) {
            return Err(
                config_error("parallel_tool_calls must be false when tool search is active"),
            );
        }
        match declarations_readiness(tools) {
            Err(e) => {
                return Err(e);
            },
            Ok(()) => {},
        }
        if let ResponsesInput::Items(items) = input {
            match items_readiness(items) {
                Err(e) => {
                    return Err(e);
                },
                Ok(()) => {},
            }
        }
        Ok(ToolSearchReadiness::StatePreparationRequired)
    }

    /// Refuses a request whose tool-search state was not prepared.
    pub fn ensure_tool_search_ready(&self) -> (out: Result<(), ToolError>)
        ensures
            match readiness(
                declared_tools(self@.tools),
                self@.input,
                self@.parallel_tool_calls,
            ) {
                Err(e) => out matches Err(x) && x@ == e,
                Ok(ToolSearchReadiness::Inactive) => out is Ok,
                Ok(ToolSearchReadiness::StatePreparationRequired) => out matches Err(x) && x@
                    == ToolErrorView::Config(
                    "tool_search requests require prepared request-scoped state before upstream conversion"@,
                ),
            },
    {
        match self.tool_search_readiness() {
            Err(e) => Err(e),
            Ok(ToolSearchReadiness::Inactive) => Ok(()),
            Ok(ToolSearchReadiness::StatePreparationRequired) => Err(
                config_error(
                    "tool_search requests require prepared request-scoped state before upstream conversion",
                ),
            ),
        }
    }
}

} // verus!
