//! Whether the gateway runs a tool itself or hands its calls to the client.
use vstd::prelude::*;

use crate::data::{copy_opt, same_opt, Data};
use crate::executors::GatewayHandler;
#[allow(unused_imports)]
use crate::executors::GatewayHandlerView;
use crate::registry::ToolEntry;
#[allow(unused_imports)]
use crate::registry::ToolEntryView;

verus! {

/// What runs a tool, and whether calls of it under one name wait for each other. Calls of
/// different names never do.
#[derive(Clone, PartialEq)]
pub struct GatewayBinding {
    pub handler: GatewayHandler,
    pub self_exclusion: bool,
}

/// The view of a [`GatewayBinding`].
#[verifier::ext_equal]
pub struct GatewayBindingView {
    pub handler: GatewayHandlerView,
    pub self_exclusion: bool,
}

impl View for GatewayBinding {
    type V = GatewayBindingView;

    open spec fn view(&self) -> GatewayBindingView {
        GatewayBindingView {
            handler: self.handler@,
            self_exclusion: self.self_exclusion,
        }
    }
}

impl Data for GatewayBinding {
    fn copied(&self) -> (out: GatewayBinding) {
        GatewayBinding {
            handler: self.handler.copied(),
            self_exclusion: self.self_exclusion,
        }
    }

    fn same(&self, other: &GatewayBinding) -> (yes: bool) {
        self.handler.same(&other.handler)
            && self.self_exclusion == other.self_exclusion
    }
}

/// Whether the gateway runs a tool or the client does.
#[derive(Clone, PartialEq)]
pub enum ToolOwnership {
    Client,
    /// Without a binding where nothing runs such tools yet.
    Gateway(Option<GatewayBinding>),
}

/// The view of a [`ToolOwnership`].
#[verifier::ext_equal]
pub enum ToolOwnershipView {
    Client,
    Gateway(Option<GatewayBindingView>),
}

impl View for ToolOwnership {
    type V = ToolOwnershipView;

    open spec fn view(&self) -> ToolOwnershipView {
        match *self {
            ToolOwnership::Client => ToolOwnershipView::Client,
            ToolOwnership::Gateway(x) => ToolOwnershipView::Gateway(crate::data::opt_view(x)),
        }
    }
}

impl Data for ToolOwnership {
    fn copied(&self) -> (out: ToolOwnership) {
        match self {
            ToolOwnership::Client => ToolOwnership::Client,
            ToolOwnership::Gateway(x) => ToolOwnership::Gateway(copy_opt(x)),
        }
    }

    fn same(&self, other: &ToolOwnership) -> (yes: bool) {
        match (self, other) {
            (ToolOwnership::Client, ToolOwnership::Client) => true,
            (ToolOwnership::Gateway(a), ToolOwnership::Gateway(b)) => same_opt(a, b),
            _ => false,
        }
    }
}

/// Whether calls of a tool may overlap.
pub open spec fn runs_in_parallel(handler: GatewayHandlerView) -> bool {
    handler is WebSearch
}

/// How a tool is bound to what runs it.
pub open spec fn binding_of(handler: GatewayHandlerView) -> GatewayBindingView {
    GatewayBindingView { handler, self_exclusion: !runs_in_parallel(handler) }
}

impl GatewayHandler {
    /// Whether calls of this tool may overlap.
    pub fn supports_parallel_execution(&self) -> (yes: bool)
        ensures
            yes == runs_in_parallel(self@),
    {
        match self {
            GatewayHandler::Mcp(_) => false,
            GatewayHandler::WebSearch(handler) => handler.supports_parallel_execution(),
        }
    }
}

impl GatewayBinding {
    /// Binds a tool to what runs it.
    pub fn new(handler: GatewayHandler) -> (binding: GatewayBinding)
        ensures
            binding@ == binding_of(handler@),
    {
        let self_exclusion = !handler.supports_parallel_execution();
        GatewayBinding { handler, self_exclusion }
    }
}

impl ToolOwnership {
    /// Whether the gateway runs the tool.
    pub fn is_gateway(&self) -> (yes: bool)
        ensures
            yes == (self@ is Gateway),
    {
        match self {
            ToolOwnership::Client => false,
            ToolOwnership::Gateway(_) => true,
        }
    }
}

/// Who runs the tool of an entry.
pub open spec fn ownership_of(entry: ToolEntryView) -> ToolOwnershipView {
    if crate::tools::gateway_owned_type(entry.tool_type) {
        ToolOwnershipView::Gateway(
            match entry.handler {
                Some(handler) => Some(binding_of(handler)),
                None => None,
            },
        )
    } else {
        ToolOwnershipView::Client
    }
}

impl ToolEntry {
    /// Who runs the tool of this entry.
    pub fn ownership(&self) -> (ownership: ToolOwnership)
        ensures
            ownership@ == ownership_of(self@),
    {
        if self.tool_type.is_gateway_owned() {
            match &self.handler {
                Some(handler) => ToolOwnership::Gateway(
                    Some(GatewayBinding::new(handler.copied())),
                ),
                None => ToolOwnership::Gateway(None),
            }
        } else {
            ToolOwnership::Client
        }
    }
}

} // verus!
