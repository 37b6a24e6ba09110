//! A request while it is served, and how its tool search is prepared.
use vstd::prelude::*;

use crate::error::ToolError;
#[allow(unused_imports)]
use crate::error::ToolErrorView;
use crate::payload::RequestPayload;
#[allow(unused_imports)]
use crate::payload::RequestPayloadView;
use crate::search::ToolSearchState;
#[allow(unused_imports)]
use crate::search::ToolSearchStateView;
use crate::tools::ResponsesTool;
#[allow(unused_imports)]
use crate::tools::ResponsesToolView;
use crate::upstream::RequestIds;
#[allow(unused_imports)]
use crate::upstream::RequestIdsView;

verus! {

/// What is known of one request while it is served.
pub struct RequestContext {
    pub original_request: RequestPayload,
    /// The request with the history that it continues.
    pub enriched_request: RequestPayload,
    pub ids: RequestIds,
    /// What searches of earlier responses loaded.
    pub tool_search_loaded_tools: Option<Vec<ResponsesTool>>,
    pub tool_search_state: Option<ToolSearchState>,
    /// The request as the model is shown it, where that differs.
    pub tool_search_private_request: Option<RequestPayload>,
}

/// The view of a [`RequestContext`].
#[verifier::ext_equal]
pub struct RequestContextView {
    pub original_request: RequestPayloadView,
    pub enriched_request: RequestPayloadView,
    pub ids: RequestIdsView,
    pub tool_search_loaded_tools: Option<Seq<ResponsesToolView>>,
    pub tool_search_state: Option<ToolSearchStateView>,
    pub tool_search_private_request: Option<RequestPayloadView>,
}

impl View for RequestContext {
    type V = RequestContextView;

    open spec fn view(&self) -> RequestContextView {
        RequestContextView {
            original_request: self.original_request@,
            enriched_request: self.enriched_request@,
            ids: self.ids@,
            tool_search_loaded_tools: crate::data::opt_views(self.tool_search_loaded_tools),
            tool_search_state: crate::data::opt_view(self.tool_search_state),
            tool_search_private_request: crate::data::opt_view(self.tool_search_private_request),
        }
    }
}

/// The request as the model is shown it.
pub open spec fn private_request(
    state: ToolSearchStateView,
    public: RequestPayloadView,
) -> RequestPayloadView {
    RequestPayloadView {
        input: match state.private_upstream_input {
            Some(input) => input,
            None => public.input,
        },
        tools: state.private_upstream_tools,
        ..public
    }
}

/// The request after its tool search was prepared. One that uses none has an inactive
/// state and no private request; one that is refused stays as it was.
pub open spec fn prepared(
    ctx: RequestContextView,
) -> (RequestContextView, Result<(), ToolErrorView>) {
    let loaded = match ctx.tool_search_loaded_tools {
        Some(tools) => tools,
        None => Seq::empty(),
    };
    match crate::search::state_of(
        ctx.enriched_request,
        loaded,
        ctx.original_request.tools is Some,
    ) {
        Err(e) => (ctx, Err(e)),
        Ok(state) => if !state.active {
            (RequestContextView { tool_search_state: Some(state), ..ctx }, Ok(()))
        } else if crate::search::targets_withheld(
            ctx.enriched_request.tool_choice,
            state.withheld_function_names,
        ) {
            (
                ctx,
                Err(
                    ToolErrorView::Config(
                        "tool_choice targets a function before its definition is loaded"@,
                    ),
                ),
            )
        } else {
            (
                RequestContextView {
                    tool_search_state: Some(state),
                    tool_search_private_request: Some(
                        private_request(state, ctx.enriched_request),
                    ),
                    ..ctx
                },
                Ok(()),
            )
        },
    }
}

/// Prepares the tool search of a request, once its history is known.
pub fn prepare_tool_search(ctx: &mut RequestContext) -> (out: Result<(), ToolError>)
    ensures
        (final(ctx)@, crate::error::outcome(out)) == prepared(old(ctx)@),
{
    let none: Vec<ResponsesTool> = Vec::new();
    proof {
        assert(crate::data::views(none@) =~= Seq::empty());
    }
    let built = ToolSearchState::build_with_loaded_tools(
        &ctx.enriched_request,
        match &ctx.tool_search_loaded_tools {
            Some(tools) => tools,
            None => &none,
        },
        ctx.original_request.tools.is_some(),
    );
    let state = match built {
        Ok(state) => state,
        Err(e) => {
            return Err(e);
        },
    };
    if !state.is_active() {
        ctx.tool_search_state = Some(state);
        return Ok(());
    }
    match state.private_inference_request(&ctx.enriched_request) {
        Ok(private) => {
            ctx.tool_search_state = Some(state);
            ctx.tool_search_private_request = Some(private);
            Ok(())
        },
        Err(e) => Err(e),
    }
}

/// What a request must be to be kept: one that asks for it, or one that continues
/// something that was.
pub open spec fn is_kept(ctx: RequestContextView) -> bool {
    ctx.original_request.store || ctx.original_request.previous_response_id is Some
        || ctx.ids.conversation_id is Some
}

impl RequestContext {
    /// Whether the response is kept.
    pub fn should_persist(&self) -> (yes: bool)
        ensures
            yes == is_kept(self@),
    {
        self.original_request.store || self.original_request.previous_response_id.is_some()
            || self.ids.conversation_id.is_some()
    }
}

} // verus!
