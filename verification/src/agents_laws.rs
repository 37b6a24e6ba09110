//! What agents are told and what is shown of their commands.
use vstd::prelude::*;

#[allow(unused_imports)]
use crate::agents::{AgentChildView, AgentCommandView, RoundDecision};
#[allow(unused_imports)]
use crate::error::ExecutorErrorView;
#[allow(unused_imports)]
use crate::json::JsonView;
#[allow(unused_imports)]
use crate::payload::UpstreamToolView;

verus! {

/// Whether a text is part of another.
pub open spec fn is_told_in(text: Seq<char>, part: Seq<char>) -> bool {
    exists|before: Seq<char>, after: Seq<char>| text == #[trigger] (before + part + after)
}

/// An agent is told who it is and how many others there may be, the state of each of its
/// children, and, unless it is the root, its task.
pub proof fn agents_are_told_their_task(
    identity: Seq<char>,
    is_root: bool,
    children: Seq<AgentChildView>,
    last_task: Seq<char>,
    limit: u64,
)
    ensures
        ({
            let message = crate::agents::guidance(identity, is_root, children, last_task, limit);
            let text = message.content->Text_0;
            &&& message.role == "developer"@
            &&& message.content is Text
            &&& is_told_in(text, identity)
            &&& is_told_in(text, crate::text::decimal_text(limit as nat))
            &&& is_told_in(text, crate::agents::children_text(is_root, children))
            &&& !is_root ==> is_told_in(text, last_task)
        }),
{
    let message = crate::agents::guidance(identity, is_root, children, last_task, limit);
    let text = message.content->Text_0;
    let start = crate::agents::INSTRUCTIONS_START@;
    let middle = crate::agents::INSTRUCTIONS_MIDDLE@;
    let number = crate::text::decimal_text(limit as nat);
    let end = crate::agents::INSTRUCTIONS_END@;
    let owners = "\n\nCurrent agent ownership (gateway state):\n"@;
    let states = crate::agents::children_text(is_root, children);
    let assignment = "\n\nYour current assignment:\n"@;
    let task = if is_root {
        "Your assignment is the user's overall request."@
    } else {
        last_task
    };
    assert(text == start + identity + middle + number + end + owners + states + assignment + task);
    assert(text =~= start + identity + (middle + number + end + owners + states + assignment
        + task));
    assert(text =~= (start + identity + middle) + number + (end + owners + states + assignment
        + task));
    assert(text =~= (start + identity + middle + number + end + owners) + states + (assignment
        + task));
    assert(text =~= (start + identity + middle + number + end + owners + states + assignment)
        + task + Seq::<char>::empty());
}

/// An agent is told of each of its children, in order, by name and with its state.
pub proof fn children_are_told_one_by_one(
    is_root: bool,
    a: Seq<AgentChildView>,
    b: Seq<AgentChildView>,
    child: AgentChildView,
)
    requires
        a.len() > 0,
        b.len() > 0,
    ensures
        crate::agents::children_text(is_root, seq![child])
            == "Your direct children and their current states:\n"@ + (child.identity + ": "@
            + child.state),
        ({
            let of_b = crate::text::join_text(
                b.map_values(|c: AgentChildView| c.identity + ": "@ + c.state),
                "\n"@,
            );
            crate::agents::children_text(is_root, a + b) == crate::agents::children_text(
                is_root,
                a,
            ) + "\n"@ + of_b
        }),
{
    let f = |c: AgentChildView| c.identity + ": "@ + c.state;
    let one = seq![child].map_values(f);
    assert(one =~= seq![child.identity + ": "@ + child.state]);
    let x = a.map_values(f);
    let y = b.map_values(f);
    assert((a + b).map_values(f) =~= x + y);
    crate::text_laws::joins_keep_all_parts(x, y, "\n"@);
    let head = "Your direct children and their current states:\n"@;
    assert(crate::agents::children_text(is_root, a + b) == head + crate::text::join_text(
        x + y,
        "\n"@,
    ));
    assert(head + (crate::text::join_text(x, "\n"@) + "\n"@ + crate::text::join_text(y, "\n"@))
        =~= head + crate::text::join_text(x, "\n"@) + "\n"@ + crate::text::join_text(y, "\n"@));
}

/// A command says each of its arguments under its own name, in order.
pub proof fn commands_say_their_arguments(command: AgentCommandView)
    ensures
        ({
            let fields = crate::agents::command_fields(command);
            &&& command is Spawn ==> fields == seq![
                ("task_name"@, JsonView::Text(command->Spawn_0.task_name)),
                ("message"@, JsonView::Text(command->Spawn_0.message)),
                ("fork_turns"@, JsonView::Text(command->Spawn_0.fork_turns)),
            ]
            &&& command is Send ==> fields == seq![
                ("target"@, JsonView::Text(command->Send_0.target)),
                ("message"@, JsonView::Text(command->Send_0.message)),
            ]
            &&& command is Followup ==> fields == seq![
                ("target"@, JsonView::Text(command->Followup_0.target)),
                ("message"@, JsonView::Text(command->Followup_0.message)),
            ]
            &&& command is Interrupt ==> fields == seq![
                ("target"@, JsonView::Text(command->Interrupt_0.target)),
            ]
            &&& command is Wait && command->Wait_0.timeout_ms is Some ==> fields == seq![
                (
                    "timeout_ms"@,
                    JsonView::Number(
                        crate::text::decimal_text(command->Wait_0.timeout_ms->0 as nat),
                    ),
                ),
            ]
            &&& command is Wait && command->Wait_0.timeout_ms is None || command is List
                ==> fields.len() == 0
        }),
{
}

/// A command that carries a message is shown with the sealed text in the message's place and
/// everything else as it is; one that carries none is shown as it is.
pub proof fn only_messages_are_hidden(command: AgentCommandView, sealed: Seq<char>)
    ensures
        ({
            let shown = crate::agents::public_command(command, sealed);
            &&& crate::agents::command_message(command) is None ==> shown == command
            &&& crate::agents::command_message(command) is Some
                ==> crate::agents::command_message(shown) == Some(sealed)
            &&& command is Spawn ==> shown is Spawn && shown->Spawn_0.task_name
                == command->Spawn_0.task_name && shown->Spawn_0.fork_turns
                == command->Spawn_0.fork_turns
            &&& command is Send ==> shown is Send && shown->Send_0.target
                == command->Send_0.target
            &&& command is Followup ==> shown is Followup && shown->Followup_0.target
                == command->Followup_0.target
            &&& command is Spawn ==> crate::agents::command_message(command) == Some(
                command->Spawn_0.message,
            )
            &&& command is Send ==> crate::agents::command_message(command) == Some(
                command->Send_0.message,
            )
            &&& command is Followup ==> crate::agents::command_message(command) == Some(
                command->Followup_0.message,
            )
        }),
{
}

/// A message that cannot be sealed is not shown at all: the command has no public arguments
/// then.
pub proof fn unsealed_messages_are_not_shown(
    key: Seq<u8>,
    nonce: Seq<u8>,
    command: AgentCommandView,
)
    ensures
        ({
            let message = crate::agents::command_message(command);
            let shown = crate::agents::public_arguments(key, nonce, command);
            &&& message is Some && crate::agents::sealed_text(key, nonce, message->0) is Err
                ==> shown is Err
            &&& message is Some && shown is Ok ==> shown->Ok_0 == crate::wire::record_text(
                crate::agents::command_fields(
                    crate::agents::public_command(
                        command,
                        crate::agents::sealed_text(key, nonce, message->0)->Ok_0,
                    ),
                ),
            )
            &&& message is None ==> shown == Ok::<Seq<char>, ExecutorErrorView>(
                crate::wire::record_text(crate::agents::command_fields(command)),
            )
        }),
{
}

proof fn bits_of_a_byte(b: u8)
    ensures
        b as int / vstd::arithmetic::power2::pow2(7) as int == b / 128,
        b as int / vstd::arithmetic::power2::pow2(6) as int == b / 64,
        b as int / vstd::arithmetic::power2::pow2(5) as int == b / 32,
        b as int / vstd::arithmetic::power2::pow2(4) as int == b / 16,
        b as int / vstd::arithmetic::power2::pow2(3) as int == b / 8,
        b as int / vstd::arithmetic::power2::pow2(2) as int == b / 4,
        b as int / vstd::arithmetic::power2::pow2(1) as int == b / 2,
        b as int / vstd::arithmetic::power2::pow2(0) as int == b,
{
    vstd::arithmetic::power2::lemma2_to64();
}

/// Bytes are written six bits to a character: of each three bytes the four characters hold all
/// bits, in order, and nothing else.
pub proof fn bytes_are_written_whole(bytes: Seq<u8>, k: int)
    requires
        0 <= k,
        3 * k + 2 < bytes.len(),
    ensures
        ({
            let a = bytes[3 * k] as int;
            let b = bytes[3 * k + 1] as int;
            let c = bytes[3 * k + 2] as int;
            let text = crate::agents::base64_url(bytes);
            &&& text[4 * k] == crate::agents::base64_char(a / 4)
            &&& text[4 * k + 1] == crate::agents::base64_char((a % 4) * 16 + b / 16)
            &&& text[4 * k + 2] == crate::agents::base64_char((b % 16) * 4 + c / 64)
            &&& text[4 * k + 3] == crate::agents::base64_char(c % 64)
        }),
{
    let a = bytes[3 * k];
    let b = bytes[3 * k + 1];
    let c = bytes[3 * k + 2];
    first_sextet(bytes, k);
    second_sextet(bytes, k);
    third_sextet(bytes, k);
    fourth_sextet(bytes, k);
}

proof fn first_sextet(bytes: Seq<u8>, k: int)
    requires
        0 <= k,
        3 * k < bytes.len(),
    ensures
        crate::agents::sextet(bytes, 4 * k) == bytes[3 * k] / 4,
{
    let a = bytes[3 * k];
    let n = 6 * (4 * k);
    assert(n == 8 * (3 * k));
    bits_are_in_their_bytes(bytes, 3 * k);
    bits_make_values(a);
}

proof fn second_sextet(bytes: Seq<u8>, k: int)
    requires
        0 <= k,
        3 * k + 1 < bytes.len(),
    ensures
        crate::agents::sextet(bytes, 4 * k + 1) == (bytes[3 * k] % 4) * 16 + bytes[3 * k + 1] / 16,
{
    let n = 6 * (4 * k + 1);
    assert(n == 8 * (3 * k) + 6);
    assert(n + 2 == 8 * (3 * k + 1));
    bits_are_in_their_bytes(bytes, 3 * k);
    bits_are_in_their_bytes(bytes, 3 * k + 1);
    bits_make_values(bytes[3 * k]);
    bits_make_values(bytes[3 * k + 1]);
}

proof fn third_sextet(bytes: Seq<u8>, k: int)
    requires
        0 <= k,
        3 * k + 2 < bytes.len(),
    ensures
        crate::agents::sextet(bytes, 4 * k + 2) == (bytes[3 * k + 1] % 16) * 4 + bytes[3 * k + 2]
            / 64,
{
    let n = 6 * (4 * k + 2);
    assert(n == 8 * (3 * k + 1) + 4);
    assert(n + 4 == 8 * (3 * k + 2));
    bits_are_in_their_bytes(bytes, 3 * k + 1);
    bits_are_in_their_bytes(bytes, 3 * k + 2);
    bits_make_values(bytes[3 * k + 1]);
    bits_make_values(bytes[3 * k + 2]);
}

proof fn fourth_sextet(bytes: Seq<u8>, k: int)
    requires
        0 <= k,
        3 * k + 2 < bytes.len(),
    ensures
        crate::agents::sextet(bytes, 4 * k + 3) == bytes[3 * k + 2] % 64,
{
    let n = 6 * (4 * k + 3);
    assert(n == 8 * (3 * k + 2) + 2);
    bits_are_in_their_bytes(bytes, 3 * k + 2);
    bits_make_values(bytes[3 * k + 2]);
}

proof fn bits_are_in_their_bytes(bytes: Seq<u8>, i: int)
    requires
        0 <= i < bytes.len(),
    ensures
        crate::agents::bit_at(bytes, 8 * i) == (bytes[i] / 128) % 2,
        crate::agents::bit_at(bytes, 8 * i + 1) == (bytes[i] / 64) % 2,
        crate::agents::bit_at(bytes, 8 * i + 2) == (bytes[i] / 32) % 2,
        crate::agents::bit_at(bytes, 8 * i + 3) == (bytes[i] / 16) % 2,
        crate::agents::bit_at(bytes, 8 * i + 4) == (bytes[i] / 8) % 2,
        crate::agents::bit_at(bytes, 8 * i + 5) == (bytes[i] / 4) % 2,
        crate::agents::bit_at(bytes, 8 * i + 6) == (bytes[i] / 2) % 2,
        crate::agents::bit_at(bytes, 8 * i + 7) == bytes[i] % 2,
{
    bits_of_a_byte(bytes[i]);
}

proof fn bits_make_values(a: u8)
    ensures
        32 * ((a / 128) % 2) + 16 * ((a / 64) % 2) + 8 * ((a / 32) % 2) + 4 * ((a / 16) % 2) + 2 * (
        (a / 8) % 2) + ((a / 4) % 2) == a / 4,
        2 * ((a / 2) % 2) + a % 2 == a % 4,
        8 * ((a / 128) % 2) + 4 * ((a / 64) % 2) + 2 * ((a / 32) % 2) + ((a / 16) % 2) == a / 16,
        8 * ((a / 8) % 2) + 4 * ((a / 4) % 2) + 2 * ((a / 2) % 2) + a % 2 == a % 16,
        2 * ((a / 128) % 2) + ((a / 64) % 2) == a / 64,
        32 * ((a / 32) % 2) + 16 * ((a / 16) % 2) + 8 * ((a / 8) % 2) + 4 * ((a / 4) % 2) + 2 * (
        (a / 2) % 2) + a % 2 == a % 64,
{
    assert(32 * ((a / 128) % 2) + 16 * ((a / 64) % 2) + 8 * ((a / 32) % 2) + 4 * ((a / 16) % 2) + 2
        * ((a / 8) % 2) + ((a / 4) % 2) == a / 4 && 2 * ((a / 2) % 2) + a % 2 == a % 4 && 8 * ((a
        / 128) % 2) + 4 * ((a / 64) % 2) + 2 * ((a / 32) % 2) + ((a / 16) % 2) == a / 16 && 8 * ((a
        / 8) % 2) + 4 * ((a / 4) % 2) + 2 * ((a / 2) % 2) + a % 2 == a % 16 && 2 * ((a / 128) % 2)
        + ((a / 64) % 2) == a / 64 && 32 * ((a / 32) % 2) + 16 * ((a / 16) % 2) + 8 * ((a / 8) % 2)
        + 4 * ((a / 4) % 2) + 2 * ((a / 2) % 2) + a % 2 == a % 64) by (bit_vector);
}

/// Each of the sixty-four values has a character of its own, none of which needs an escape in an
/// address.
pub proof fn characters_stand_for_their_values(n: int, m: int)
    requires
        0 <= n < 64,
        0 <= m < 64,
    ensures
        ({
            let c = crate::agents::base64_char(n);
            &&& n < 26 ==> 'A' <= c <= 'Z' && c as u32 - 'A' as u32 == n
            &&& 26 <= n < 52 ==> 'a' <= c <= 'z' && c as u32 - 'a' as u32 == n - 26
            &&& 52 <= n < 62 ==> '0' <= c <= '9' && c as u32 - '0' as u32 == n - 52
            &&& n == 62 ==> c == '-'
            &&& n == 63 ==> c == '_'
            &&& c == crate::agents::base64_char(m) ==> n == m
        }),
{
}

/// Whether a tool is a function of a name that asks for the given arguments, and knows each of
/// them.
pub open spec fn is_offered(
    tool: UpstreamToolView,
    name: Seq<char>,
    required: Seq<Seq<char>>,
) -> bool {
    let f = tool->Function_0;
    let schema = f.parameters->0->Object_0;
    &&& tool is Function
    &&& f.name == name
    &&& f.parameters is Some && f.parameters->0 is Object
    &&& schema.contains_key("required"@) && schema["required"@] is Array
    &&& schema["required"@]->Array_0.len() == required.len()
    &&& forall|i: int|
        0 <= i < required.len() ==> (#[trigger] schema["required"@]->Array_0[i])
            == JsonView::Text(required[i])
    &&& schema.contains_key("additionalProperties"@) && schema["additionalProperties"@]
        == JsonView::Bool(false)
    &&& schema.contains_key("properties"@) && schema["properties"@] is Object
    &&& forall|i: int|
        0 <= i < required.len() ==> schema["properties"@]->Object_0.contains_key(
            #[trigger] required[i],
        )
}

/// Agents are offered six tools, each with the arguments that its command needs.
pub proof fn agents_are_offered_their_tools()
    ensures
        ({
            let tools = crate::agents::agent_tools();
            &&& tools.len() == 6
            &&& is_offered(tools[0], "spawn_agent"@, seq!["task_name"@, "message"@])
            &&& is_offered(tools[1], "send_message"@, seq!["target"@, "message"@])
            &&& is_offered(tools[2], "followup_task"@, seq!["target"@, "message"@])
            &&& is_offered(tools[3], "wait_agent"@, Seq::empty())
            &&& is_offered(tools[4], "interrupt_agent"@, seq!["target"@])
            &&& is_offered(tools[5], "list_agents"@, Seq::empty())
        }),
{
    reveal_strlit("type");
    reveal_strlit("properties");
    reveal_strlit("required");
    reveal_strlit("additionalProperties");
    assert("type"@.len() == 4);
    assert("properties"@.len() == 10);
    assert("required"@.len() == 8);
    assert("additionalProperties"@.len() == 20);
    let spawn = seq!["task_name"@, "message"@, "fork_turns"@];
    reveal_with_fuel(crate::agents::text_properties, 4);
    assert(spawn.drop_last() =~= seq!["task_name"@, "message"@]);
    assert(spawn.drop_last().drop_last() =~= seq!["task_name"@]);
    assert(spawn.drop_last().drop_last().drop_last() =~= Seq::empty());
    let send = seq!["target"@, "message"@];
    assert(send.drop_last() =~= seq!["target"@]);
    assert(send.drop_last().drop_last() =~= Seq::empty());
    assert(crate::agents::text_properties(spawn).contains_key("task_name"@));
    assert(crate::agents::text_properties(spawn).contains_key("message"@));
    assert(crate::agents::text_properties(send).contains_key("target"@));
    assert(crate::agents::text_properties(send).contains_key("message"@));
    let one = seq!["target"@];
    assert(one.drop_last() =~= Seq::empty());
    assert(crate::agents::text_properties(one).contains_key("target"@));
}

/// What follows a round is named by its own word.
pub proof fn decisions_have_their_names(decision: RoundDecision)
    ensures
        decision is Continue ==> crate::agents::decision_name(decision) == "continue"@,
        decision is Done ==> crate::agents::decision_name(decision) == "done"@,
        decision is RequiresClientAction ==> crate::agents::decision_name(decision)
            == "requires_client_action"@,
        decision is Incomplete ==> crate::agents::decision_name(decision) == "incomplete"@,
        decision is UpstreamTerminal ==> crate::agents::decision_name(decision)
            == "upstream_terminal"@,
{
}

/// A wait may be asked for from ten seconds to an hour, in milliseconds, and nothing else is
/// asked of one.
pub proof fn waits_are_bounded()
    ensures
        ({
            let f = crate::agents::agent_tools()[3]->Function_0;
            let schema = f.parameters->0->Object_0;
            let known = schema["properties"@]->Object_0;
            let bounds = known["timeout_ms"@]->Object_0;
            &&& f.name == "wait_agent"@
            &&& known.contains_key("timeout_ms"@) && known["timeout_ms"@] is Object
            &&& crate::accumulator_laws::says(bounds, "type"@, "integer"@)
            &&& bounds.contains_key("minimum"@) && bounds["minimum"@] == JsonView::Number(
                crate::text::decimal_text(10000),
            )
            &&& bounds.contains_key("maximum"@) && bounds["maximum"@] == JsonView::Number(
                crate::text::decimal_text(3600000),
            )
        }),
{
    reveal_strlit("type");
    reveal_strlit("minimum");
    reveal_strlit("maximum");
    reveal_strlit("properties");
    reveal_strlit("required");
    reveal_strlit("additionalProperties");
    assert("type"@.len() == 4 && "properties"@.len() == 10 && "required"@.len() == 8);
    assert("additionalProperties"@.len() == 20);
    assert("minimum"@.len() == 7 && "minimum"@[1] == 'i');
    assert("maximum"@.len() == 7 && "maximum"@[1] == 'a');
}

} // verus!
