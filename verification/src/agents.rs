//! Agents that work together: what the model is told of them, the tools that it is given,
//! and how their messages are shown publicly.
use vstd::prelude::*;

use crate::data::Data;
use crate::error::ExecutorError;
#[allow(unused_imports)]
use crate::error::ExecutorErrorView;
use crate::ids::random_bytes;
use crate::items::{InputMessage, InputMessageContent};
#[allow(unused_imports)]
use crate::items::{InputMessageContentView, InputMessageView};
use crate::json::{Json, JsonNumber, JsonObject};
#[allow(unused_imports)]
use crate::json::JsonView;
use crate::payload::UpstreamTool;
#[allow(unused_imports)]
use crate::payload::UpstreamToolView;
use crate::text::{concat, concat3, decimal, join};
use crate::tools::FunctionTool;
#[allow(unused_imports)]
use crate::tools::FunctionToolView;
use crate::wire::write_record;

verus! {

/// A subagent to create, and its task.
#[derive(Debug, Clone, PartialEq)]
pub struct SpawnAgent {
    pub task_name: String,
    pub message: String,
    pub fork_turns: String,
}

/// The view of a [`SpawnAgent`].
#[verifier::ext_equal]
pub struct SpawnAgentView {
    pub task_name: Seq<char>,
    pub message: Seq<char>,
    pub fork_turns: Seq<char>,
}

impl View for SpawnAgent {
    type V = SpawnAgentView;

    open spec fn view(&self) -> SpawnAgentView {
        SpawnAgentView {
            task_name: self.task_name@,
            message: self.message@,
            fork_turns: self.fork_turns@,
        }
    }
}

impl Data for SpawnAgent {
    fn copied(&self) -> (out: SpawnAgent) {
        SpawnAgent {
            task_name: self.task_name.copied(),
            message: self.message.copied(),
            fork_turns: self.fork_turns.copied(),
        }
    }

    fn same(&self, other: &SpawnAgent) -> (yes: bool) {
        self.task_name.same(&other.task_name)
            && self.message.same(&other.message)
            && self.fork_turns.same(&other.fork_turns)
    }
}

/// A message to an agent.
#[derive(Debug, Clone, PartialEq)]
pub struct AgentMessage {
    pub target: String,
    pub message: String,
}

/// The view of a [`AgentMessage`].
#[verifier::ext_equal]
pub struct AgentMessageView {
    pub target: Seq<char>,
    pub message: Seq<char>,
}

impl View for AgentMessage {
    type V = AgentMessageView;

    open spec fn view(&self) -> AgentMessageView {
        AgentMessageView {
            target: self.target@,
            message: self.message@,
        }
    }
}

impl Data for AgentMessage {
    fn copied(&self) -> (out: AgentMessage) {
        AgentMessage {
            target: self.target.copied(),
            message: self.message.copied(),
        }
    }

    fn same(&self, other: &AgentMessage) -> (yes: bool) {
        self.target.same(&other.target)
            && self.message.same(&other.message)
    }
}

/// An agent to interrupt.
#[derive(Debug, Clone, PartialEq)]
pub struct InterruptAgent {
    pub target: String,
}

/// The view of a [`InterruptAgent`].
#[verifier::ext_equal]
pub struct InterruptAgentView {
    pub target: Seq<char>,
}

impl View for InterruptAgent {
    type V = InterruptAgentView;

    open spec fn view(&self) -> InterruptAgentView {
        InterruptAgentView {
            target: self.target@,
        }
    }
}

impl Data for InterruptAgent {
    fn copied(&self) -> (out: InterruptAgent) {
        InterruptAgent {
            target: self.target.copied(),
        }
    }

    fn same(&self, other: &InterruptAgent) -> (yes: bool) {
        self.target.same(&other.target)
    }
}

/// How long to wait.
#[derive(Debug, Clone, PartialEq)]
pub struct WaitAgent {
    pub timeout_ms: Option<u64>,
}

/// The view of a [`WaitAgent`].
#[verifier::ext_equal]
pub struct WaitAgentView {
    pub timeout_ms: Option<u64>,
}

impl View for WaitAgent {
    type V = WaitAgentView;

    open spec fn view(&self) -> WaitAgentView {
        WaitAgentView {
            timeout_ms: self.timeout_ms,
        }
    }
}

impl Data for WaitAgent {
    fn copied(&self) -> (out: WaitAgent) {
        WaitAgent {
            timeout_ms: self.timeout_ms,
        }
    }

    fn same(&self, other: &WaitAgent) -> (yes: bool) {
        self.timeout_ms == other.timeout_ms
    }
}

/// What an agent asks of the others.
#[derive(Debug, Clone, PartialEq)]
pub enum AgentCommand {
    Spawn(SpawnAgent),
    Send(AgentMessage),
    Followup(AgentMessage),
    Wait(WaitAgent),
    Interrupt(InterruptAgent),
    List,
}

/// The view of a [`AgentCommand`].
#[verifier::ext_equal]
pub enum AgentCommandView {
    Spawn(SpawnAgentView),
    Send(AgentMessageView),
    Followup(AgentMessageView),
    Wait(WaitAgentView),
    Interrupt(InterruptAgentView),
    List,
}

impl View for AgentCommand {
    type V = AgentCommandView;

    open spec fn view(&self) -> AgentCommandView {
        match *self {
            AgentCommand::Spawn(x) => AgentCommandView::Spawn(x@),
            AgentCommand::Send(x) => AgentCommandView::Send(x@),
            AgentCommand::Followup(x) => AgentCommandView::Followup(x@),
            AgentCommand::Wait(x) => AgentCommandView::Wait(x@),
            AgentCommand::Interrupt(x) => AgentCommandView::Interrupt(x@),
            AgentCommand::List => AgentCommandView::List,
        }
    }
}

impl Data for AgentCommand {
    fn copied(&self) -> (out: AgentCommand) {
        match self {
            AgentCommand::Spawn(x) => AgentCommand::Spawn(x.copied()),
            AgentCommand::Send(x) => AgentCommand::Send(x.copied()),
            AgentCommand::Followup(x) => AgentCommand::Followup(x.copied()),
            AgentCommand::Wait(x) => AgentCommand::Wait(x.copied()),
            AgentCommand::Interrupt(x) => AgentCommand::Interrupt(x.copied()),
            AgentCommand::List => AgentCommand::List,
        }
    }

    fn same(&self, other: &AgentCommand) -> (yes: bool) {
        match (self, other) {
            (AgentCommand::Spawn(a), AgentCommand::Spawn(b)) => a.same(b),
            (AgentCommand::Send(a), AgentCommand::Send(b)) => a.same(b),
            (AgentCommand::Followup(a), AgentCommand::Followup(b)) => a.same(b),
            (AgentCommand::Wait(a), AgentCommand::Wait(b)) => a.same(b),
            (AgentCommand::Interrupt(a), AgentCommand::Interrupt(b)) => a.same(b),
            (AgentCommand::List, AgentCommand::List) => true,
            _ => false,
        }
    }
}

/// A direct child of an agent, and what it does.
#[derive(Debug, Clone, PartialEq)]
pub struct AgentChild {
    pub identity: String,
    pub state: String,
}

/// The view of a [`AgentChild`].
#[verifier::ext_equal]
pub struct AgentChildView {
    pub identity: Seq<char>,
    pub state: Seq<char>,
}

impl View for AgentChild {
    type V = AgentChildView;

    open spec fn view(&self) -> AgentChildView {
        AgentChildView {
            identity: self.identity@,
            state: self.state@,
        }
    }
}

impl Data for AgentChild {
    fn copied(&self) -> (out: AgentChild) {
        AgentChild {
            identity: self.identity.copied(),
            state: self.state.copied(),
        }
    }

    fn same(&self, other: &AgentChild) -> (yes: bool) {
        self.identity.same(&other.identity)
            && self.state.same(&other.state)
    }
}

/// Whose output something is.
#[derive(Debug, Clone, PartialEq)]
pub struct AgentAttribution {
    pub agent_name: String,
}

/// The view of a [`AgentAttribution`].
#[verifier::ext_equal]
pub struct AgentAttributionView {
    pub agent_name: Seq<char>,
}

impl View for AgentAttribution {
    type V = AgentAttributionView;

    open spec fn view(&self) -> AgentAttributionView {
        AgentAttributionView {
            agent_name: self.agent_name@,
        }
    }
}

impl Data for AgentAttribution {
    fn copied(&self) -> (out: AgentAttribution) {
        AgentAttribution {
            agent_name: self.agent_name.copied(),
        }
    }

    fn same(&self, other: &AgentAttribution) -> (yes: bool) {
        self.agent_name.same(&other.agent_name)
    }
}

/// What follows a round.
#[derive(Debug, Clone, Copy, PartialEq, Eq, Structural)]
pub enum RoundDecision {
    Continue,
    Done,
    RequiresClientAction,
    Incomplete,
    UpstreamTerminal,
}

/// What an agent is told.
#[derive(Debug, Clone, PartialEq)]
pub enum AgentMailContent {
    Task(String),
    Message(String),
    TurnFinished(String),
}

/// The view of a [`AgentMailContent`].
#[verifier::ext_equal]
pub enum AgentMailContentView {
    Task(Seq<char>),
    Message(Seq<char>),
    TurnFinished(Seq<char>),
}

impl View for AgentMailContent {
    type V = AgentMailContentView;

    open spec fn view(&self) -> AgentMailContentView {
        match *self {
            AgentMailContent::Task(x) => AgentMailContentView::Task(x@),
            AgentMailContent::Message(x) => AgentMailContentView::Message(x@),
            AgentMailContent::TurnFinished(x) => AgentMailContentView::TurnFinished(x@),
        }
    }
}

impl Data for AgentMailContent {
    fn copied(&self) -> (out: AgentMailContent) {
        match self {
            AgentMailContent::Task(x) => AgentMailContent::Task(x.copied()),
            AgentMailContent::Message(x) => AgentMailContent::Message(x.copied()),
            AgentMailContent::TurnFinished(x) => AgentMailContent::TurnFinished(x.copied()),
        }
    }

    fn same(&self, other: &AgentMailContent) -> (yes: bool) {
        match (self, other) {
            (AgentMailContent::Task(a), AgentMailContent::Task(b)) => a.same(b),
            (AgentMailContent::Message(a), AgentMailContent::Message(b)) => a.same(b),
            (AgentMailContent::TurnFinished(a), AgentMailContent::TurnFinished(b)) => a.same(b),
            _ => false,
        }
    }
}

/// What agents are told before their name.
pub const INSTRUCTIONS_START: &'static str = "You are `";

/// What agents are told between their name and the number of agents that may be active.
pub const INSTRUCTIONS_MIDDLE: &'static str = "`, an agent in a team working on the user's task. The root agent /root synthesizes the final answer. Each agent has its own context and the same tools. Use spawn_agent for independent bounded tasks; send_message queues information without activating idle agents; followup_task activates a non-root agent; wait_agent waits for mailbox updates; interrupt_agent interrupts active work while retaining context; list_agents reports the tree. Targets can be child names or canonical paths. There are ";

/// What agents are told after that number.
pub const INSTRUCTIONS_END: &'static str = " active subagent slots across all descendants, excluding /root. Spawn returns an acknowledgement; the answer arrives later in a mailbox message. Subagent final answers are delivered to their parent. Continue useful work while agents run. Function calls and local shell calls are executed by the client; their outputs may arrive in a later response.";

/// What an agent is told of itself and of the others.
pub open spec fn instructions_text(identity: Seq<char>, max_subagents: u64) -> Seq<char> {
    INSTRUCTIONS_START@ + identity + INSTRUCTIONS_MIDDLE@ + crate::text::decimal_text(
        max_subagents as nat,
    ) + INSTRUCTIONS_END@
}

/// What an agent is told of itself and of the others.
pub fn instructions(identity: &str, max_subagents: u64) -> (text: String)
    ensures
        text@ == instructions_text(identity@, max_subagents),
{
    let named = concat3(INSTRUCTIONS_START, identity, INSTRUCTIONS_MIDDLE);
    let limit = decimal(max_subagents);
    concat3(named.as_str(), limit.as_str(), INSTRUCTIONS_END)
}

/// Whose output something is.
pub fn attribution(identity: &str) -> (attribution: AgentAttribution)
    ensures
        attribution@.agent_name == identity@,
{
    AgentAttribution { agent_name: identity.to_owned() }
}

/// A property that is a text.
pub open spec fn text_property() -> JsonView {
    JsonView::Object(
        Map::<Seq<char>, JsonView>::empty().insert("type"@, JsonView::Text("string"@)),
    )
}

fn make_text_property() -> (property: Json)
    ensures
        property@ == text_property(),
{
    let mut fields = JsonObject::new();
    fields.set_str("type", "string");
    Json::Object(fields)
}

/// Properties that are texts.
pub open spec fn text_properties(names: Seq<Seq<char>>) -> Map<Seq<char>, JsonView>
    decreases names.len(),
{
    if names.len() == 0 {
        Map::empty()
    } else {
        text_properties(names.drop_last()).insert(names.last(), text_property())
    }
}

fn make_text_properties(names: &Vec<&'static str>) -> (fields: JsonObject)
    ensures
        fields@ == text_properties(crate::data::views(names@)),
{
    let ghost all = crate::data::views(names@);
    let mut fields = JsonObject::new();
    let mut i: usize = 0;
    proof {
        assert(all.take(0) =~= Seq::empty());
    }
    while i < names.len()
        invariant
            i <= names@.len(),
            all == crate::data::views(names@),
            fields@ == text_properties(all.take(i as int)),
        decreases names@.len() - i,
    {
        let name = names[i];
        proof {
            assert(all[i as int] == name@);
            assert(all.take(i + 1).drop_last() =~= all.take(i as int));
        }
        fields.set(name, make_text_property());
        i = i + 1;
    }
    proof {
        assert(all.take(names@.len() as int) =~= all);
    }
    fields
}

/// The bounds of a wait.
pub open spec fn timeout_property() -> Map<Seq<char>, JsonView> {
    Map::<Seq<char>, JsonView>::empty().insert(
        "timeout_ms"@,
        JsonView::Object(
            Map::<Seq<char>, JsonView>::empty().insert("type"@, JsonView::Text("integer"@)).insert(
                "minimum"@,
                crate::wire::u64_json(10_000),
            ).insert("maximum"@, crate::wire::u64_json(3_600_000)),
        ),
    )
}

fn make_timeout_property() -> (fields: JsonObject)
    ensures
        fields@ == timeout_property(),
{
    let mut bounds = JsonObject::new();
    bounds.set_str("type", "integer");
    bounds.set("minimum", Json::Number(JsonNumber::from_u64(10_000)));
    bounds.set("maximum", Json::Number(JsonNumber::from_u64(3_600_000)));
    let mut fields = JsonObject::new();
    fields.set("timeout_ms", Json::Object(bounds));
    fields
}

/// A tool of the agents.
pub open spec fn agent_tool(
    name: Seq<char>,
    description: Seq<char>,
    properties: Map<Seq<char>, JsonView>,
    required: Seq<Seq<char>>,
) -> UpstreamToolView {
    UpstreamToolView::Function(
        FunctionToolView {
            type_: "function"@,
            name,
            description: Some(description),
            parameters: Some(
                JsonView::Object(
                    Map::<Seq<char>, JsonView>::empty().insert(
                        "type"@,
                        JsonView::Text("object"@),
                    ).insert("properties"@, JsonView::Object(properties)).insert(
                        "required"@,
                        JsonView::Array(required.map_values(|n: Seq<char>| JsonView::Text(n))),
                    ).insert("additionalProperties"@, JsonView::Bool(false)),
                ),
            ),
            strict: Some(false),
        },
    )
}

fn make_agent_tool(
    name: &str,
    description: &str,
    properties: JsonObject,
    required: &Vec<&'static str>,
) -> (tool: UpstreamTool)
    ensures
        tool@ == agent_tool(
            name@,
            description@,
            properties@,
            crate::data::views(required@),
        ),
{
    let mut names: Vec<Json> = Vec::new();
    let mut i: usize = 0;
    while i < required.len()
        invariant
            i <= required@.len(),
            names@.len() == i,
            forall|j: int| 0 <= j < i ==> (#[trigger] names@[j])@ == JsonView::Text(required@[j]@),
        decreases required@.len() - i,
    {
        names.push(Json::text(required[i]));
        i = i + 1;
    }
    proof {
        assert(crate::json::array_view(names@) =~= crate::data::views(required@).map_values(
            |n: Seq<char>| JsonView::Text(n),
        ));
    }
    let mut schema = JsonObject::new();
    schema.set_str("type", "object");
    schema.set("properties", Json::Object(properties));
    schema.set("required", Json::Array(names));
    schema.set("additionalProperties", Json::Bool(false));
    UpstreamTool::Function(
        FunctionTool {
            type_: "function".to_owned(),
            name: name.to_owned(),
            description: Some(description.to_owned()),
            parameters: Some(Json::Object(schema)),
            strict: Some(false),
        },
    )
}

/// The tools of the agents.
pub open spec fn agent_tools() -> Seq<UpstreamToolView> {
    seq![
        agent_tool(
            "spawn_agent"@,
            "Create a subagent for an independent task. fork_turns is all, none, or a positive integer string."@,
            text_properties(seq!["task_name"@, "message"@, "fork_turns"@]),
            seq!["task_name"@, "message"@],
        ),
        agent_tool(
            "send_message"@,
            "Queue a message without starting an idle agent."@,
            text_properties(seq!["target"@, "message"@]),
            seq!["target"@, "message"@],
        ),
        agent_tool(
            "followup_task"@,
            "Assign work to an existing non-root agent, starting or resuming its turn."@,
            text_properties(seq!["target"@, "message"@]),
            seq!["target"@, "message"@],
        ),
        agent_tool(
            "wait_agent"@,
            "Wait for a mailbox update. timeout_ms is between 10000 and 3600000, default 30000."@,
            timeout_property(),
            Seq::empty(),
        ),
        agent_tool(
            "interrupt_agent"@,
            "Interrupt another agent's active turn, retaining its context."@,
            text_properties(seq!["target"@]),
            seq!["target"@],
        ),
        agent_tool(
            "list_agents"@,
            "List agent paths, statuses and their most recent assigned task."@,
            text_properties(Seq::empty()),
            Seq::empty(),
        ),
    ]
}

/// The tools of the agents.
pub fn tools() -> (tools: Vec<UpstreamTool>)
    ensures
        crate::data::views(tools@) == agent_tools(),
{
    let nothing: Vec<&'static str> = Vec::new();
    let target: Vec<&'static str> = vec!["target"];
    let message: Vec<&'static str> = vec!["target", "message"];
    let task: Vec<&'static str> = vec!["task_name", "message", "fork_turns"];
    let task_required: Vec<&'static str> = vec!["task_name", "message"];
    proof {
        assert(crate::data::views(nothing@) =~= Seq::empty());
        assert(crate::data::views(target@) =~= seq!["target"@]);
        assert(crate::data::views(message@) =~= seq!["target"@, "message"@]);
        assert(crate::data::views(task@) =~= seq!["task_name"@, "message"@, "fork_turns"@]);
        assert(crate::data::views(task_required@) =~= seq!["task_name"@, "message"@]);
    }
    let tools = vec![
        make_agent_tool(
            "spawn_agent",
            "Create a subagent for an independent task. fork_turns is all, none, or a positive integer string.",
            make_text_properties(&task),
            &task_required,
        ),
        make_agent_tool(
            "send_message",
            "Queue a message without starting an idle agent.",
            make_text_properties(&message),
            &message,
        ),
        make_agent_tool(
            "followup_task",
            "Assign work to an existing non-root agent, starting or resuming its turn.",
            make_text_properties(&message),
            &message,
        ),
        make_agent_tool(
            "wait_agent",
            "Wait for a mailbox update. timeout_ms is between 10000 and 3600000, default 30000.",
            make_timeout_property(),
            &nothing,
        ),
        make_agent_tool(
            "interrupt_agent",
            "Interrupt another agent's active turn, retaining its context.",
            make_text_properties(&target),
            &target,
        ),
        make_agent_tool(
            "list_agents",
            "List agent paths, statuses and their most recent assigned task.",
            make_text_properties(&nothing),
            &nothing,
        ),
    ];
    proof {
        assert(crate::data::views(tools@) =~= agent_tools());
    }
    tools
}

/// What an agent is told of its children.
pub open spec fn children_text(is_root: bool, children: Seq<AgentChildView>) -> Seq<char> {
    if children.len() > 0 {
        "Your direct children and their current states:\n"@ + crate::text::join_text(
            children.map_values(|c: AgentChildView| c.identity + ": "@ + c.state),
            "\n"@,
        )
    } else if is_root {
        "You have no direct children yet. Delegate independent tasks when useful; wait only after successful delegation."@
    } else {
        "You have no direct children. No child result is outstanding. Complete your assigned work yourself."@
    }
}

fn describe_children(is_root: bool, children: &Vec<AgentChild>) -> (text: String)
    ensures
        text@ == children_text(is_root, crate::data::views(children@)),
{
    if children.len() == 0 {
        return if is_root {
            "You have no direct children yet. Delegate independent tasks when useful; wait only after successful delegation.".to_owned()
        } else {
            "You have no direct children. No child result is outstanding. Complete your assigned work yourself.".to_owned()
        };
    }
    let mut lines: Vec<String> = Vec::new();
    let mut i: usize = 0;
    while i < children.len()
        invariant
            i <= children@.len(),
            lines@.len() == i,
            forall|j: int|
                0 <= j < i ==> (#[trigger] lines@[j])@ == children@[j]@.identity + ": "@
                    + children@[j]@.state,
        decreases children@.len() - i,
    {
        lines.push(concat3(children[i].identity.as_str(), ": ", children[i].state.as_str()));
        i = i + 1;
    }
    proof {
        assert(crate::data::views(lines@) =~= crate::data::views(children@).map_values(
            |c: AgentChildView| c.identity + ": "@ + c.state,
        ));
    }
    let listed = join(&lines, "\n");
    concat("Your direct children and their current states:\n", listed.as_str())
}

/// What an agent is told before a round: of the team, of its children and of its task.
/// The root's task is the user's request.
pub open spec fn guidance(
    identity: Seq<char>,
    is_root: bool,
    children: Seq<AgentChildView>,
    last_task: Seq<char>,
    limit: u64,
) -> InputMessageView {
    InputMessageView {
        role: "developer"@,
        content: InputMessageContentView::Text(
            instructions_text(identity, limit)
                + "\n\nCurrent agent ownership (gateway state):\n"@ + children_text(
                is_root,
                children,
            ) + "\n\nYour current assignment:\n"@ + (if is_root {
                "Your assignment is the user's overall request."@
            } else {
                last_task
            }),
        ),
    }
}

/// What an agent is told before a round.
pub fn round_guidance(
    identity: &str,
    is_root: bool,
    children: &Vec<AgentChild>,
    last_task: &str,
    limit: u64,
) -> (message: InputMessage)
    ensures
        message@ == guidance(
            identity@,
            is_root,
            crate::data::views(children@),
            last_task@,
            limit,
        ),
{
    let start = instructions(identity, limit);
    let owned = describe_children(is_root, children);
    let told = concat3(
        start.as_str(),
        "\n\nCurrent agent ownership (gateway state):\n",
        owned.as_str(),
    );
    let task = if is_root {
        "Your assignment is the user's overall request."
    } else {
        last_task
    };
    InputMessage {
        role: "developer".to_owned(),
        content: InputMessageContent::Text(
            concat3(told.as_str(), "\n\nYour current assignment:\n", task),
        ),
    }
}

/// The name of what follows a round.
pub open spec fn decision_name(decision: RoundDecision) -> Seq<char> {
    match decision {
        RoundDecision::Continue => "continue"@,
        RoundDecision::Done => "done"@,
        RoundDecision::RequiresClientAction => "requires_client_action"@,
        RoundDecision::Incomplete => "incomplete"@,
        RoundDecision::UpstreamTerminal => "upstream_terminal"@,
    }
}

impl RoundDecision {
    /// The name of this decision.
    pub fn as_str(self) -> (name: &'static str)
        ensures
            name@ == decision_name(self),
    {
        match self {
            RoundDecision::Continue => "continue",
            RoundDecision::Done => "done",
            RoundDecision::RequiresClientAction => "requires_client_action",
            RoundDecision::Incomplete => "incomplete",
            RoundDecision::UpstreamTerminal => "upstream_terminal",
        }
    }
}

/// The kind of what an agent is told.
pub fn mail_kind(content: &AgentMailContent) -> (kind: &'static str)
    ensures
        kind@ == (match content@ {
            AgentMailContentView::Task(_) => "task"@,
            AgentMailContentView::Message(_) => "message"@,
            AgentMailContentView::TurnFinished(_) => "turn_finished"@,
        }),
{
    match content {
        AgentMailContent::Task(_) => "task",
        AgentMailContent::Message(_) => "message",
        AgentMailContent::TurnFinished(_) => "turn_finished",
    }
}

/// The fields of a command, in order.
pub open spec fn command_fields(command: AgentCommandView) -> Seq<(Seq<char>, JsonView)> {
    match command {
        AgentCommandView::Spawn(task) => seq![
            ("task_name"@, JsonView::Text(task.task_name)),
            ("message"@, JsonView::Text(task.message)),
            ("fork_turns"@, JsonView::Text(task.fork_turns)),
        ],
        AgentCommandView::Send(m) => message_fields(m),
        AgentCommandView::Followup(m) => message_fields(m),
        AgentCommandView::Wait(wait) => match wait.timeout_ms {
            Some(ms) => seq![("timeout_ms"@, crate::wire::u64_json(ms))],
            None => Seq::empty(),
        },
        AgentCommandView::Interrupt(agent) => seq![("target"@, JsonView::Text(agent.target))],
        AgentCommandView::List => Seq::empty(),
    }
}

/// The fields of a message, in order.
pub open spec fn message_fields(m: AgentMessageView) -> Seq<(Seq<char>, JsonView)> {
    seq![("target"@, JsonView::Text(m.target)), ("message"@, JsonView::Text(m.message))]
}

fn message_to_fields(m: &AgentMessage) -> (fields: Vec<(&'static str, Json)>)
    ensures
        crate::wire::named_views(fields@) == message_fields(m@),
{
    let fields: Vec<(&'static str, Json)> = vec![
        ("target", Json::text(m.target.as_str())),
        ("message", Json::text(m.message.as_str())),
    ];
    proof {
        assert(crate::wire::named_views(fields@) =~= message_fields(m@));
    }
    fields
}

impl AgentCommand {
    /// The command as JSON text, its fields in order.
    pub fn to_text(&self) -> (text: String)
        ensures
            text@ == crate::wire::record_text(command_fields(self@)),
    {
        let fields: Vec<(&'static str, Json)> = match self {
            AgentCommand::Spawn(task) => vec![
                ("task_name", Json::text(task.task_name.as_str())),
                ("message", Json::text(task.message.as_str())),
                ("fork_turns", Json::text(task.fork_turns.as_str())),
            ],
            AgentCommand::Send(m) => message_to_fields(m),
            AgentCommand::Followup(m) => message_to_fields(m),
            AgentCommand::Wait(wait) => match wait.timeout_ms {
                Some(ms) => vec![("timeout_ms", Json::Number(JsonNumber::from_u64(ms)))],
                None => Vec::new(),
            },
            AgentCommand::Interrupt(agent) => vec![("target", Json::text(agent.target.as_str()))],
            AgentCommand::List => Vec::new(),
        };
        proof {
            assert(crate::wire::named_views(fields@) =~= command_fields(self@));
        }
        write_record(&fields)
    }
}

/// A bit of bytes, the first the most significant; past the end all are clear.
pub open spec fn bit_at(bytes: Seq<u8>, k: int) -> int {
    if 0 <= k / 8 < bytes.len() {
        (bytes[k / 8] as int / vstd::arithmetic::power2::pow2((7 - k % 8) as nat) as int) % 2
    } else {
        0
    }
}

/// Six bits of bytes.
pub open spec fn sextet(bytes: Seq<u8>, i: int) -> int {
    32 * bit_at(bytes, 6 * i) + 16 * bit_at(bytes, 6 * i + 1) + 8 * bit_at(bytes, 6 * i + 2) + 4
        * bit_at(bytes, 6 * i + 3) + 2 * bit_at(bytes, 6 * i + 4) + bit_at(bytes, 6 * i + 5)
}

/// The character for six bits, in the alphabet that may stand in addresses.
pub open spec fn base64_char(n: int) -> char {
    if n < 26 {
        (n + 65) as char
    } else if n < 52 {
        (n - 26 + 97) as char
    } else if n < 62 {
        (n - 52 + 48) as char
    } else if n == 62 {
        '-'
    } else {
        '_'
    }
}

/// Bytes as text: six bits to a character, without padding.
pub open spec fn base64_url(bytes: Seq<u8>) -> Seq<char> {
    Seq::new(((8 * bytes.len() + 5) / 6) as nat, |i: int| base64_char(sextet(bytes, i)))
}

/// Calls `encode` of `base64`'s engine `URL_SAFE_NO_PAD`, which the documentation says
/// to use the alphabet of RFC 4648 for addresses and no padding: each six bits of the
/// bytes become one character, the last ones filled up with clear bits. The call panics
/// where the text is longer than the machine's memory can hold.
#[verifier::external_body]
fn encode_base64_url(bytes: &Vec<u8>) -> (text: String)
    requires
        (8 * bytes@.len() + 5) / 6 <= isize::MAX,
    ensures
        text@ == base64_url(bytes@),
{
    base64::Engine::encode(&base64::engine::general_purpose::URL_SAFE_NO_PAD, bytes)
}

/// What AES-256 in Galois/Counter mode makes of bytes under a key, a nonce and data that
/// is authenticated only: the sealed bytes with the tag after them.
pub uninterp spec fn aes_sealed(
    key: Seq<u8>,
    nonce: Seq<u8>,
    aad: Seq<u8>,
    bytes: Seq<u8>,
) -> Option<
    Seq<u8>,
>;

/// Calls `seal_in_place_append_tag` of a `ring::aead::LessSafeKey` for `AES_256_GCM`. The
/// result depends on the four arguments alone; there is none where the key or the nonce
/// has another length than the algorithm's, and a tag of sixteen bytes follows the sealed
/// ones. Nothing else is said of the sealed bytes.
#[verifier::external_body]
fn seal_aes(
    key: &Vec<u8>,
    nonce: &Vec<u8>,
    aad: &Vec<u8>,
    bytes: &Vec<u8>,
) -> (sealed: Option<Vec<u8>>)
    ensures
        sealed_view(sealed) == aes_sealed(key@, nonce@, aad@, bytes@),
        sealed matches Some(s) ==> key@.len() == 32 && nonce@.len() == 12 && s@.len() == bytes@.len()
            + 16,
{
    let key = ring::aead::UnboundKey::new(&ring::aead::AES_256_GCM, key).ok()?;
    let key = ring::aead::LessSafeKey::new(key);
    let nonce = ring::aead::Nonce::try_assume_unique_for_key(nonce).ok()?;
    let mut sealed = bytes.clone();
    key.seal_in_place_append_tag(nonce, ring::aead::Aad::from(aad), &mut sealed).ok()?;
    Some(sealed)
}

/// The view of bytes that may be absent.
pub open spec fn sealed_view(sealed: Option<Vec<u8>>) -> Option<Seq<u8>> {
    match sealed {
        Some(bytes) => Some(bytes@),
        None => None,
    }
}

/// What public transcripts are authenticated with.
pub const TRANSCRIPT_CONTEXT: &'static str = "agentic-api/multi-agent/v1";

/// The error of a transcript that could not be sealed.
pub open spec fn crypto_failure() -> ExecutorErrorView {
    ExecutorErrorView::StreamError("could not seal the multi-agent transcript"@)
}

fn crypto_error() -> (error: ExecutorError)
    ensures
        error@ == crypto_failure(),
{
    ExecutorError::StreamError("could not seal the multi-agent transcript".to_owned())
}

/// Hides the messages of public transcripts under a key that is the response's own. What
/// a response is continued from is never read back from the client.
pub struct TranscriptSealer {
    key: Vec<u8>,
}

impl View for TranscriptSealer {
    type V = Seq<u8>;

    closed spec fn view(&self) -> Seq<u8> {
        self.key@
    }
}

/// Whether what a text is hidden as under a nonce is no longer than the machine's memory can
/// hold.
pub open spec fn fits_sealed(nonce: nat, text: Seq<char>) -> bool {
    (8 * (nonce + vstd::utf8::encode_utf8(text).len() + 16) + 5) / 6 <= isize::MAX
}

/// A text hidden under a key and a nonce: the nonce and the sealed text, as one text. One
/// that cannot be sealed is an error.
pub open spec fn sealed_text(key: Seq<u8>, nonce: Seq<u8>, text: Seq<char>) -> Result<
    Seq<char>,
    ExecutorErrorView,
> {
    match aes_sealed(
        key,
        nonce,
        vstd::utf8::encode_utf8(TRANSCRIPT_CONTEXT@),
        vstd::utf8::encode_utf8(text),
    ) {
        Some(sealed) => Ok("enc_"@ + base64_url(nonce + sealed)),
        None => Err(crypto_failure()),
    }
}

/// A command with its message hidden; one without a message as it is.
pub open spec fn public_command(command: AgentCommandView, sealed: Seq<char>) -> AgentCommandView {
    match command {
        AgentCommandView::Spawn(task) => AgentCommandView::Spawn(
            SpawnAgentView { message: sealed, ..task },
        ),
        AgentCommandView::Send(m) => AgentCommandView::Send(
            AgentMessageView { message: sealed, ..m },
        ),
        AgentCommandView::Followup(m) => AgentCommandView::Followup(
            AgentMessageView { message: sealed, ..m },
        ),
        other => other,
    }
}

/// The message of a command.
pub open spec fn command_message(command: AgentCommandView) -> Option<Seq<char>> {
    match command {
        AgentCommandView::Spawn(task) => Some(task.message),
        AgentCommandView::Send(m) => Some(m.message),
        AgentCommandView::Followup(m) => Some(m.message),
        _ => None,
    }
}

/// The public arguments of a command, hidden under a key and a nonce.
pub open spec fn public_arguments(
    key: Seq<u8>,
    nonce: Seq<u8>,
    command: AgentCommandView,
) -> Result<
    Seq<char>,
    ExecutorErrorView,
> {
    match command_message(command) {
        None => Ok(crate::wire::record_text(command_fields(command))),
        Some(message) => match sealed_text(key, nonce, message) {
            Err(e) => Err(e),
            Ok(sealed) => Ok(
                crate::wire::record_text(command_fields(public_command(command, sealed))),
            ),
        },
    }
}

impl TranscriptSealer {
    /// A sealer with a new key, where the system has randomness to give.
    pub fn new() -> (out: Result<TranscriptSealer, ExecutorError>)
        ensures
            match out {
                Ok(sealer) => sealer@.len() == 32,
                Err(e) => e@ == crypto_failure(),
            },
    {
        match random_bytes(32) {
            Some(key) => Ok(TranscriptSealer { key }),
            None => Err(crypto_error()),
        }
    }

    /// A sealer with a given key.
    pub fn with_key(key: Vec<u8>) -> (sealer: TranscriptSealer)
        ensures
            sealer@ == key@,
    {
        TranscriptSealer { key }
    }

    /// Hides a text under a given nonce.
    pub fn seal_with(&self, text: &str, nonce: &Vec<u8>) -> (out: Result<String, ExecutorError>)
        requires
            fits_sealed(nonce@.len(), text@),
        ensures
            crate::error::outcome(out) == sealed_text(self@, nonce@, text@),
    {
        let aad = bytes_of(TRANSCRIPT_CONTEXT);
        let bytes = bytes_of(text);
        match seal_aes(&self.key, nonce, &aad, &bytes) {
            Some(sealed) => {
                let envelope = join_bytes(nonce, &sealed);
                let encoded = encode_base64_url(&envelope);
                Ok(concat("enc_", encoded.as_str()))
            },
            None => Err(crypto_error()),
        }
    }

    /// Hides a text under a new nonce.
    pub fn seal(&self, text: &str) -> (out: Result<String, ExecutorError>)
        requires
            fits_sealed(12, text@),
        ensures
            crate::error::outcome(out) == Err::<Seq<char>, _>(crypto_failure()) || exists|
                nonce: Seq<u8>,
            |
                nonce.len() == 12 && crate::error::outcome(out) == #[trigger] sealed_text(
                    self@,
                    nonce,
                    text@,
                ),
    {
        match random_bytes(12) {
            Some(nonce) => self.seal_with(text, &nonce),
            None => Err(crypto_error()),
        }
    }

    /// The public arguments of a command: its message is hidden under a given nonce.
    pub fn arguments_with(&self, command: &AgentCommand, nonce: &Vec<u8>) -> (out: Result<
        String,
        ExecutorError,
    >)
        requires
            command_message(command@) matches Some(message) ==> fits_sealed(nonce@.len(), message),
        ensures
            crate::error::outcome(out) == public_arguments(self@, nonce@, command@),
    {
        let mut public = command.copied();
        match command {
            AgentCommand::Spawn(task) => match self.seal_with(task.message.as_str(), nonce) {
                Ok(sealed) => {
                    let mut task = task.copied();
                    task.message = sealed;
                    public = AgentCommand::Spawn(task);
                },
                Err(e) => {
                    return Err(e);
                },
            },
            AgentCommand::Send(m) => match self.seal_with(m.message.as_str(), nonce) {
                Ok(sealed) => {
                    let mut m = m.copied();
                    m.message = sealed;
                    public = AgentCommand::Send(m);
                },
                Err(e) => {
                    return Err(e);
                },
            },
            AgentCommand::Followup(m) => match self.seal_with(m.message.as_str(), nonce) {
                Ok(sealed) => {
                    let mut m = m.copied();
                    m.message = sealed;
                    public = AgentCommand::Followup(m);
                },
                Err(e) => {
                    return Err(e);
                },
            },
            _ => {},
        }
        Ok(public.to_text())
    }

    /// The public arguments of a command: its message is hidden under a new nonce.
    pub fn arguments(&self, command: &AgentCommand) -> (out: Result<String, ExecutorError>)
        requires
            command_message(command@) matches Some(message) ==> fits_sealed(12, message),
        ensures
            command_message(command@) is None ==> crate::error::outcome(out) == Ok::<_, ExecutorErrorView>(
                crate::wire::record_text(command_fields(command@)),
            ),
            crate::error::outcome(out) == Err::<Seq<char>, _>(crypto_failure()) || exists|
                nonce: Seq<u8>,
            |
                nonce.len() == 12 && crate::error::outcome(out) == #[trigger] public_arguments(
                    self@,
                    nonce,
                    command@,
                ),
    {
        match command {
            AgentCommand::Wait(_) | AgentCommand::Interrupt(_) | AgentCommand::List => {
                let nonce: Vec<u8> = Vec::new();
                proof {
                    let any = Seq::new(12, |i: int| 0u8);
                    assert(public_arguments(self@, any, command@) == public_arguments(
                        self@,
                        nonce@,
                        command@,
                    ));
                }
                self.arguments_with(command, &nonce)
            },
            _ => match random_bytes(12) {
                Some(nonce) => self.arguments_with(command, &nonce),
                None => Err(crypto_error()),
            },
        }
    }
}

/// Two commands that differ in their messages alone have the same public arguments, but
/// for what is made of the messages under the key.
pub proof fn messages_show_only_sealed(
    key: Seq<u8>,
    nonce: Seq<u8>,
    command: AgentCommandView,
    message: Seq<char>,
)
    requires
        command_message(command) is Some,
        sealed_text(key, nonce, command_message(command)->0) == sealed_text(key, nonce, message),
    ensures
        public_arguments(key, nonce, public_command(command, message)) == public_arguments(
            key,
            nonce,
            command,
        ),
{
}

fn bytes_of(text: &str) -> (bytes: Vec<u8>)
    ensures
        bytes@ == vstd::utf8::encode_utf8(text@),
{
    let all = text.as_bytes();
    let mut bytes: Vec<u8> = Vec::new();
    let mut i: usize = 0;
    while i < all.len()
        invariant
            i <= all@.len(),
            bytes@ == all@.take(i as int),
        decreases all@.len() - i,
    {
        bytes.push(all[i]);
        proof {
            assert(all@.take(i + 1) =~= all@.take(i as int).push(all@[i as int]));
        }
        i = i + 1;
    }
    proof {
        assert(all@.take(all@.len() as int) =~= all@);
    }
    bytes
}

fn join_bytes(a: &Vec<u8>, b: &Vec<u8>) -> (bytes: Vec<u8>)
    ensures
        bytes@ == a@ + b@,
{
    let mut bytes: Vec<u8> = Vec::new();
    let mut i: usize = 0;
    while i < a.len()
        invariant
            i <= a@.len(),
            bytes@ == a@.take(i as int),
        decreases a@.len() - i,
    {
        bytes.push(a[i]);
        proof {
            assert(a@.take(i + 1) =~= a@.take(i as int).push(a@[i as int]));
        }
        i = i + 1;
    }
    let mut j: usize = 0;
    proof {
        assert(a@.take(a@.len() as int) + b@.take(0) =~= a@.take(a@.len() as int));
    }
    while j < b.len()
        invariant
            j <= b@.len(),
            bytes@ == a@.take(a@.len() as int) + b@.take(j as int),
        decreases b@.len() - j,
    {
        bytes.push(b[j]);
        proof {
            assert(a@.take(a@.len() as int) + b@.take(j + 1) =~= (a@.take(a@.len() as int) + b@.take(
                j as int,
            )).push(b@[j as int]));
        }
        j = j + 1;
    }
    proof {
        assert(a@.take(a@.len() as int) =~= a@);
        assert(b@.take(b@.len() as int) =~= b@);
    }
    bytes
}

} // verus!
