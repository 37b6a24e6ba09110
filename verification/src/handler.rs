//! What running a tool gives.
use vstd::prelude::*;

use crate::data::Data;
#[allow(unused_imports)]
use crate::error::ToolError;
use crate::items::FunctionToolResultMessage;
use crate::tools::ToolType;

verus! {

/// The output of a tool for a call.
#[derive(Debug, Clone, PartialEq)]
pub struct ToolOutput {
    pub call_id: String,
    pub output: String,
}

/// The view of a [`ToolOutput`].
#[verifier::ext_equal]
pub struct ToolOutputView {
    pub call_id: Seq<char>,
    pub output: Seq<char>,
}

impl View for ToolOutput {
    type V = ToolOutputView;

    open spec fn view(&self) -> ToolOutputView {
        ToolOutputView { call_id: self.call_id@, output: self.output@ }
    }
}

impl Data for ToolOutput {
    fn copied(&self) -> (out: ToolOutput) {
        ToolOutput { call_id: self.call_id.copied(), output: self.output.copied() }
    }

    fn same(&self, other: &ToolOutput) -> (yes: bool) {
        self.call_id.same(&other.call_id) && self.output.same(&other.output)
    }
}

/// A tool's output is the result message of its call.
impl From<ToolOutput> for FunctionToolResultMessage {
    fn from(o: ToolOutput) -> (message: FunctionToolResultMessage) {
        FunctionToolResultMessage { call_id: o.call_id, output: o.output }
    }
}

impl vstd::std_specs::convert::FromSpecImpl<ToolOutput> for FunctionToolResultMessage {
    open spec fn obeys_from_spec() -> bool {
        true
    }

    open spec fn from_spec(o: ToolOutput) -> FunctionToolResultMessage {
        FunctionToolResultMessage { call_id: o.call_id, output: o.output }
    }
}

/// What came of a call that the gateway ran.
#[derive(Debug)]
pub struct GatewayDispatchResult {
    pub tool_type: ToolType,
    pub output: Result<ToolOutput, ToolError>,
}

} // verus!
