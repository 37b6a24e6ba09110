//! Errors of tools and of response production.
use vstd::prelude::*;

#[allow(unused_imports)]
use crate::data::Data;
#[allow(unused_imports)]
use crate::text::{concat, concat3};

verus! {

/// Why a tool could not be used.
#[derive(Debug, Clone, PartialEq)]
pub enum ToolError {
    /// Running the tool failed.
    Execution(String),
    /// The tool's declaration, or a request that uses it, is not valid.
    Config(String),
    /// A continuation request omitted the output for a pending function call.
    MissingOutput { call_id: String },
}

/// The view of a [`ToolError`].
#[verifier::ext_equal]
pub enum ToolErrorView {
    Execution(Seq<char>),
    Config(Seq<char>),
    MissingOutput { call_id: Seq<char> },
}

impl View for ToolError {
    type V = ToolErrorView;

    open spec fn view(&self) -> ToolErrorView {
        match *self {
            ToolError::Execution(x) => ToolErrorView::Execution(x@),
            ToolError::Config(x) => ToolErrorView::Config(x@),
            ToolError::MissingOutput { call_id } => ToolErrorView::MissingOutput {
                call_id: call_id@,
            },
        }
    }
}

impl Data for ToolError {
    fn copied(&self) -> (out: ToolError) {
        match self {
            ToolError::Execution(x) => ToolError::Execution(x.copied()),
            ToolError::Config(x) => ToolError::Config(x.copied()),
            ToolError::MissingOutput { call_id } => ToolError::MissingOutput {
                call_id: call_id.copied(),
            },
        }
    }

    fn same(&self, other: &ToolError) -> (yes: bool) {
        match (self, other) {
            (ToolError::Execution(a), ToolError::Execution(b)) => a.same(b),
            (ToolError::Config(a), ToolError::Config(b)) => a.same(b),
            (
                ToolError::MissingOutput { call_id: a_call_id },
                ToolError::MissingOutput { call_id: b_call_id },
            ) => {
                a_call_id.same(b_call_id)
            },
            _ => false,
        }
    }
}

/// Why a response could not be produced.
#[derive(Debug, Clone, PartialEq)]
pub enum ExecutorError {
    Tool(ToolError),
    StreamError(String),
    JsonError(String),
    ParseError(String),
}

/// The view of a [`ExecutorError`].
#[verifier::ext_equal]
pub enum ExecutorErrorView {
    Tool(ToolErrorView),
    StreamError(Seq<char>),
    JsonError(Seq<char>),
    ParseError(Seq<char>),
}

impl View for ExecutorError {
    type V = ExecutorErrorView;

    open spec fn view(&self) -> ExecutorErrorView {
        match *self {
            ExecutorError::Tool(x) => ExecutorErrorView::Tool(x@),
            ExecutorError::StreamError(x) => ExecutorErrorView::StreamError(x@),
            ExecutorError::JsonError(x) => ExecutorErrorView::JsonError(x@),
            ExecutorError::ParseError(x) => ExecutorErrorView::ParseError(x@),
        }
    }
}

impl Data for ExecutorError {
    fn copied(&self) -> (out: ExecutorError) {
        match self {
            ExecutorError::Tool(x) => ExecutorError::Tool(x.copied()),
            ExecutorError::StreamError(x) => ExecutorError::StreamError(x.copied()),
            ExecutorError::JsonError(x) => ExecutorError::JsonError(x.copied()),
            ExecutorError::ParseError(x) => ExecutorError::ParseError(x.copied()),
        }
    }

    fn same(&self, other: &ExecutorError) -> (yes: bool) {
        match (self, other) {
            (ExecutorError::Tool(a), ExecutorError::Tool(b)) => a.same(b),
            (ExecutorError::StreamError(a), ExecutorError::StreamError(b)) => a.same(b),
            (ExecutorError::JsonError(a), ExecutorError::JsonError(b)) => a.same(b),
            (ExecutorError::ParseError(a), ExecutorError::ParseError(b)) => a.same(b),
            _ => false,
        }
    }
}

impl ToolError {
    /// The error as text.
    pub fn message(&self) -> (text: String)
        ensures
            text@ == tool_error_text(self@),
    {
        match self {
            ToolError::Execution(m) => concat("execution failed: ", m.as_str()),
            ToolError::Config(m) => concat("invalid tool config: ", m.as_str()),
            ToolError::MissingOutput { call_id } => concat3(
                "No tool output found for function call ",
                call_id.as_str(),
                ".",
            ),
        }
    }
}

/// A tool error as text.
pub open spec fn tool_error_text(error: ToolErrorView) -> Seq<char> {
    match error {
        ToolErrorView::Execution(m) => "execution failed: "@ + m,
        ToolErrorView::Config(m) => "invalid tool config: "@ + m,
        ToolErrorView::MissingOutput { call_id } => "No tool output found for function call "@ + call_id
            + "."@,
    }
}

/// What an upstream server is told that sent a malformed tool-search call.
pub open spec fn invalid_search_call() -> ToolErrorView {
    ToolErrorView::Execution("upstream returned an invalid tool-search call"@)
}

/// What an upstream server is told that called a function whose schema is withheld.
pub open spec fn withheld_function_call() -> ToolErrorView {
    ToolErrorView::Execution(
        "upstream returned a call for a function that has not been loaded"@,
    )
}

/// What an upstream server is told that sent a malformed tool-search call.
pub fn invalid_upstream_search_call() -> (error: ToolError)
    ensures
        error@ == invalid_search_call(),
{
    ToolError::Execution("upstream returned an invalid tool-search call".to_owned())
}

/// What an upstream server is told that called a function whose schema is withheld.
pub fn invalid_upstream_withheld_function_call() -> (error: ToolError)
    ensures
        error@ == withheld_function_call(),
{
    ToolError::Execution(
        "upstream returned a call for a function that has not been loaded".to_owned(),
    )
}

/// A configuration error with the given text.
pub fn config_error(message: &str) -> (error: ToolError)
    ensures
        error@ == ToolErrorView::Config(message@),
{
    ToolError::Config(message.to_owned())
}

impl ExecutorError {
    /// Whether the upstream server sent a malformed tool-search call.
    pub fn is_invalid_upstream_tool_search(&self) -> (yes: bool)
        ensures
            yes == (self@ == ExecutorErrorView::Tool(invalid_search_call())),
    {
        match self {
            ExecutorError::Tool(error) => error.same(&invalid_upstream_search_call()),
            _ => false,
        }
    }

    /// The error as text.
    pub fn message(&self) -> (text: String)
        ensures
            text@ == (match self@ {
                ExecutorErrorView::Tool(error) => tool_error_text(error),
                ExecutorErrorView::StreamError(m) => "stream error: "@ + m,
                ExecutorErrorView::JsonError(m) => "JSON error: "@ + m,
                ExecutorErrorView::ParseError(m) => "parse error: "@ + m,
            }),
    {
        match self {
            ExecutorError::Tool(error) => error.message(),
            ExecutorError::StreamError(m) => concat("stream error: ", m.as_str()),
            ExecutorError::JsonError(m) => concat("JSON error: ", m.as_str()),
            ExecutorError::ParseError(m) => concat("parse error: ", m.as_str()),
        }
    }
}

/// The view of an outcome.
pub open spec fn outcome<T: View, E: View>(r: Result<T, E>) -> Result<T::V, E::V> {
    match r {
        Ok(t) => Ok(t@),
        Err(e) => Err(e@),
    }
}

} // verus!
