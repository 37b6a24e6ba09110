//! The names under which the model sees declared tools.
use vstd::prelude::*;
#[allow(unused_imports)]
use vstd::string::*;

#[allow(unused_imports)]
use crate::error::{ToolError, ToolErrorView};
use crate::text::{char_count, hex, same_text, stable_hash, take_chars};
use crate::tools::{CodexNamespaceMember, CodexNamespaceToolParam, ResponsesTool};
#[allow(unused_imports)]
use crate::tools::{CodexNamespaceMemberView, ResponsesToolView};

verus! {

/// What the name of every namespace member begins with.
pub const MODEL_VISIBLE_NAMESPACE_MEMBER_PREFIX: &'static str = "agentic_ns__";

/// The longest name that the model is shown, in characters.
pub const MAX_MODEL_VISIBLE_TOOL_NAME_LEN: usize = 64;

const HASHED_NAMESPACE_MEMBER_SUFFIX_LEN: usize = 18;

/// The name of a namespace member before it is cut to length.
pub open spec fn full_member_name(namespace: Seq<char>, member: Seq<char>) -> Seq<char> {
    "agentic_ns__"@ + namespace + "__"@ + member
}

/// The flat name of a namespace member: the full name where it is short enough,
/// else its beginning and the hash of all of it.
pub open spec fn member_name(namespace: Seq<char>, member: Seq<char>) -> Seq<char> {
    let full = full_member_name(namespace, member);
    if full.len() <= 64 {
        full
    } else {
        full.take(46) + "__"@ + crate::text::hex_text(
            crate::text::fnv1a(vstd::utf8::encode_utf8(full)) as nat,
            16,
        )
    }
}

/// The flat name under which the model sees a namespace member.
pub fn model_visible_namespace_member_name(namespace: &str, member: &str) -> (name: String)
    ensures
        name@ == member_name(namespace@, member@),
{
    let mut full = "agentic_ns__".to_owned();
    full.append(namespace);
    full.append("__");
    full.append(member);
    if char_count(full.as_str()) <= MAX_MODEL_VISIBLE_TOOL_NAME_LEN {
        return full;
    }
    let readable: usize = MAX_MODEL_VISIBLE_TOOL_NAME_LEN - HASHED_NAMESPACE_MEMBER_SUFFIX_LEN;
    let mut name = take_chars(full.as_str(), readable);
    name.append("__");
    name.append(hex(stable_hash(full.as_str()), 16).as_str());
    name
}

/// A member's flat name is never longer than what the model is shown.
pub proof fn member_name_fits(namespace: Seq<char>, member: Seq<char>)
    ensures
        member_name(namespace, member).len() <= 64,
{
    let full = full_member_name(namespace, member);
    if full.len() > 64 {
        crate::text::hex_text_length(
            crate::text::fnv1a(vstd::utf8::encode_utf8(full)) as nat,
            16,
        );
        reveal_strlit("__");
    }
}

/// A member's flat name always begins with the common prefix.
pub proof fn member_name_has_prefix(namespace: Seq<char>, member: Seq<char>)
    ensures
        crate::text::has_prefix(member_name(namespace, member), "agentic_ns__"@),
{
    reveal_strlit("agentic_ns__");
    let full = full_member_name(namespace, member);
    let name = member_name(namespace, member);
    assert(full.take(12) =~= "agentic_ns__"@);
    if full.len() > 64 {
        assert(name.take(12) =~= full.take(12));
    }
}

/// Where a model-visible name comes from.
pub enum DeclaredNameOrigin {
    TopLevel { description: &'static str },
    NamespaceMember { namespace: String, member: String },
}

/// The view of a [`DeclaredNameOrigin`].
pub enum OriginView {
    TopLevel { description: Seq<char> },
    NamespaceMember { namespace: Seq<char>, member: Seq<char> },
}

impl View for DeclaredNameOrigin {
    type V = OriginView;

    open spec fn view(&self) -> OriginView {
        match *self {
            DeclaredNameOrigin::TopLevel { description } => OriginView::TopLevel {
                description: description@,
            },
            DeclaredNameOrigin::NamespaceMember {
                namespace,
                member,
            } => OriginView::NamespaceMember {
                namespace: namespace@,
                member: member@,
            },
        }
    }
}

/// A name that the model sees, and where it comes from.
pub struct DeclaredName {
    pub name: String,
    pub origin: DeclaredNameOrigin,
}

/// The view of a [`DeclaredName`].
pub struct DeclaredNameView {
    pub name: Seq<char>,
    pub origin: OriginView,
}

impl View for DeclaredName {
    type V = DeclaredNameView;

    open spec fn view(&self) -> DeclaredNameView {
        DeclaredNameView { name: self.name@, origin: self.origin@ }
    }
}

/// What messages call an origin.
pub open spec fn origin_description(origin: OriginView) -> Seq<char> {
    match origin {
        OriginView::TopLevel { description } => description,
        OriginView::NamespaceMember { namespace, member } => "Codex namespace member "@ + namespace
            + "."@ + member,
    }
}

impl DeclaredNameOrigin {
    /// What messages call this origin.
    pub fn description(&self) -> (text: String)
        ensures
            text@ == origin_description(self@),
    {
        match self {
            DeclaredNameOrigin::TopLevel { description } => (*description).to_owned(),
            DeclaredNameOrigin::NamespaceMember { namespace, member } => {
                let mut text = "Codex namespace member ".to_owned();
                text.append(namespace.as_str());
                text.append(".");
                text.append(member.as_str());
                text
            },
        }
    }
}

/// The names that the members of a namespace give, in order.
pub open spec fn member_declared_names(
    namespace: Seq<char>,
    members: Seq<CodexNamespaceMemberView>,
) -> Seq<DeclaredNameView>
    decreases members.len(),
{
    if members.len() == 0 {
        Seq::empty()
    } else {
        let rest = member_declared_names(namespace, members.drop_last());
        match members.last() {
            CodexNamespaceMemberView::Function(function) => rest.push(
                DeclaredNameView {
                    name: member_name(namespace, function.name),
                    origin: OriginView::NamespaceMember { namespace, member: function.name },
                },
            ),
            CodexNamespaceMemberView::Unknown => rest,
        }
    }
}

/// One name that a declaration gives.
pub open spec fn top_level(name: Seq<char>, description: Seq<char>) -> Seq<DeclaredNameView> {
    seq![DeclaredNameView { name, origin: OriginView::TopLevel { description } }]
}

/// The names that a declaration gives, in order.
pub open spec fn tool_declared_names(tool: ResponsesToolView) -> Seq<DeclaredNameView> {
    match tool {
        ResponsesToolView::Function(f) => top_level(f.name, "function tool"@),
        ResponsesToolView::Custom(c) => top_level(c.name, "custom tool"@),
        ResponsesToolView::WebSearch(_) => top_level("web_search"@, "web search tool"@),
        ResponsesToolView::FileSearch(_) => top_level("file_search"@, "file search tool"@),
        ResponsesToolView::CodeInterpreter(_) => top_level(
            "code_interpreter"@,
            "code interpreter tool"@,
        ),
        ResponsesToolView::Namespace(n) => member_declared_names(n.name, n.tools),
        ResponsesToolView::ToolSearch(_) => Seq::empty(),
        ResponsesToolView::Mcp(_) => Seq::empty(),
        ResponsesToolView::Unknown => Seq::empty(),
    }
}

/// The names that a list of declarations gives, in order.
pub open spec fn declared_names(tools: Seq<ResponsesToolView>) -> Seq<DeclaredNameView>
    decreases tools.len(),
{
    if tools.len() == 0 {
        Seq::empty()
    } else {
        declared_names(tools.drop_last()) + tool_declared_names(tools.last())
    }
}

/// The place of the first of the names that is `name`.
pub open spec fn first_named(names: Seq<DeclaredNameView>, name: Seq<char>) -> Option<int>
    decreases names.len(),
{
    if names.len() == 0 {
        None
    } else {
        match first_named(names.drop_last(), name) {
            Some(i) => Some(i),
            None => if names.last().name == name {
                Some(names.len() - 1)
            } else {
                None
            },
        }
    }
}

/// What is said of a name that an earlier declaration took.
pub open spec fn collision(existing: DeclaredNameView, new: DeclaredNameView) -> ToolErrorView {
    ToolErrorView::Config(
        match new.origin {
            OriginView::NamespaceMember {
                namespace,
                member,
            } => "codex namespace member "@ + namespace
                + "."@ + member + " at generated name "@ + new.name
                + ", which collides with a declared "@ + origin_description(existing.origin),
            OriginView::TopLevel {
                description,
            } => description + " model-visible name '"@ + new.name
                + "' collides with declared "@ + origin_description(existing.origin),
        },
    )
}

/// The outcome of taking the names one by one: an error at the first that was
/// taken before.
pub open spec fn take_names(names: Seq<DeclaredNameView>) -> Result<(), ToolErrorView>
    decreases names.len(),
{
    if names.len() == 0 {
        Ok(())
    } else {
        match take_names(names.drop_last()) {
            Err(e) => Err(e),
            Ok(()) => match first_named(names.drop_last(), names.last().name) {
                Some(i) => Err(collision(names[i], names.last())),
                None => Ok(()),
            },
        }
    }
}

proof fn take_names_prefix(names: Seq<DeclaredNameView>, more: Seq<DeclaredNameView>)
    ensures
        take_names(names) is Err ==> take_names(names + more) == take_names(names),
    decreases more.len(),
{
    if more.len() == 0 {
        assert(names + more =~= names);
    } else {
        take_names_prefix(names, more.drop_last());
        assert((names + more).drop_last() =~= names + more.drop_last());
    }
}

proof fn declared_names_prefix(tools: Seq<ResponsesToolView>, n: int)
    requires
        0 <= n <= tools.len(),
    ensures
        exists|more: Seq<DeclaredNameView>|
            declared_names(tools) == #[trigger] (declared_names(tools.take(n)) + more),
    decreases tools.len() - n,
{
    if n == tools.len() {
        assert(tools.take(n) =~= tools);
        assert(declared_names(tools) =~= declared_names(tools.take(n)) + Seq::<DeclaredNameView>::empty());
    } else {
        declared_names_prefix(tools, n + 1);
        assert(tools.take(n + 1).drop_last() =~= tools.take(n));
        let more = choose|more: Seq<DeclaredNameView>|
            declared_names(tools) == #[trigger] (declared_names(tools.take(n + 1)) + more);
        let step = tool_declared_names(tools[n]);
        assert(declared_names(tools) =~= declared_names(tools.take(n)) + (step + more));
    }
}

proof fn member_names_prefix(namespace: Seq<char>, members: Seq<CodexNamespaceMemberView>, n: int)
    requires
        0 <= n <= members.len(),
    ensures
        exists|more: Seq<DeclaredNameView>|
            member_declared_names(namespace, members) == #[trigger] (member_declared_names(
                namespace,
                members.take(n),
            ) + more),
    decreases members.len() - n,
{
    if n == members.len() {
        assert(members.take(n) =~= members);
        assert(member_declared_names(namespace, members) =~= member_declared_names(
            namespace,
            members.take(n),
        ) + Seq::<DeclaredNameView>::empty());
    } else {
        member_names_prefix(namespace, members, n + 1);
        assert(members.take(n + 1).drop_last() =~= members.take(n));
        let now = member_declared_names(namespace, members.take(n));
        let next = member_declared_names(namespace, members.take(n + 1));
        let more = choose|more: Seq<DeclaredNameView>|
            member_declared_names(namespace, members) == #[trigger] (next + more);
        let step = next.skip(now.len() as int);
        assert(next =~= now + step);
        assert(member_declared_names(namespace, members) =~= now + (step + more));
    }
}

/// Declarations are accepted exactly where no two of them give one name.
pub proof fn names_accepted_iff_distinct(names: Seq<DeclaredNameView>)
    ensures
        take_names(names) is Ok <==> forall|i: int, j: int|
            0 <= i < j < names.len() ==> (#[trigger] names[i]).name != (#[trigger] names[j]).name,
    decreases names.len(),
{
    if names.len() > 0 {
        let rest = names.drop_last();
        names_accepted_iff_distinct(rest);
        first_named_is_first(rest, names.last().name);
        if take_names(names) is Ok {
            assert forall|i: int, j: int| 0 <= i < j < names.len() implies (#[trigger] names[i]).name != (
            #[trigger] names[j]).name by {
                if j < rest.len() {
                    assert(rest[i].name != rest[j].name);
                } else {
                    assert(rest[i].name != names.last().name);
                }
            }
        } else {
            if take_names(rest) is Err {
                let (i, j) = choose|i: int, j: int|
                    0 <= i < j < rest.len() && !((#[trigger] rest[i]).name != (#[trigger] rest[j]).name);
                assert(names[i].name == names[j].name);
            } else {
                let i = first_named(rest, names.last().name)->0;
                assert(names[i].name == names[names.len() - 1].name);
            }
        }
    }
}

proof fn first_named_is_first(names: Seq<DeclaredNameView>, name: Seq<char>)
    ensures
        first_named(names, name) matches Some(i) ==> 0 <= i < names.len() && names[i].name == name,
        first_named(names, name) is None ==> forall|i: int|
            0 <= i < names.len() ==> (#[trigger] names[i]).name != name,
    decreases names.len(),
{
    if names.len() > 0 {
        let rest = names.drop_last();
        first_named_is_first(rest, name);
        if first_named(names, name) is None {
            assert forall|i: int| 0 <= i < names.len() implies (#[trigger] names[i]).name != name by {
                if i < rest.len() {
                    assert(rest[i].name != name);
                }
            }
        }
    }
}

/// Takes one name more, unless it was taken before.
fn record_name(names: &mut Vec<DeclaredName>, name: DeclaredName) -> (out: Result<(), ToolError>)
    requires
        take_names(crate::data::views(old(names)@)) is Ok,
    ensures
        crate::error::outcome(out) == take_names(crate::data::views(old(names)@).push(name@)),
        out is Ok ==> crate::data::views(
            final(names)@,
        ) == crate::data::views(old(names)@).push(name@),
{
    let ghost before = crate::data::views(names@);
    let mut i: usize = 0;
    proof {
        assert(before.push(name@).drop_last() =~= before);
    }
    while i < names.len()
        invariant
            i <= names@.len(),
            before == crate::data::views(names@),
            first_named(before.take(i as int), name.name@) is None,
            before.push(name@).drop_last() == before,
            take_names(before) is Ok,
        decreases names@.len() - i,
    {
        proof {
            assert(before.take(i + 1).drop_last() =~= before.take(i as int));
        }
        if same_text(names[i].name.as_str(), name.name.as_str()) {
            let existing = names[i].origin.description();
            proof {
                first_named_stays(before, name.name@, i + 1);
                assert(before.push(name@)[i as int] == names@[i as int]@);
            }
            let mut text = String::new();
            match &name.origin {
                DeclaredNameOrigin::NamespaceMember { namespace, member } => {
                    text.append("codex namespace member ");
                    text.append(namespace.as_str());
                    text.append(".");
                    text.append(member.as_str());
                    text.append(" at generated name ");
                    text.append(name.name.as_str());
                    text.append(", which collides with a declared ");
                    text.append(existing.as_str());
                    proof {
                        assert(ToolErrorView::Config(text@) == collision(before[i as int], name@)) by {
                            assert(text@ =~= collision(before[i as int], name@)->Config_0);
                        }
                    }
                },
                DeclaredNameOrigin::TopLevel { description } => {
                    text.append(description);
                    text.append(" model-visible name '");
                    text.append(name.name.as_str());
                    text.append("' collides with declared ");
                    text.append(existing.as_str());
                    proof {
                        assert(ToolErrorView::Config(text@) == collision(before[i as int], name@)) by {
                            assert(text@ =~= collision(before[i as int], name@)->Config_0);
                        }
                    }
                },
            }
            return Err(ToolError::Config(text));
        }
        i = i + 1;
    }
    proof {
        assert(before.take(before.len() as int) =~= before);
        crate::data::views_push(names@, name);
    }
    names.push(name);
    Ok(())
}

proof fn first_named_stays(names: Seq<DeclaredNameView>, name: Seq<char>, n: int)
    requires
        0 <= n <= names.len(),
        first_named(names.take(n), name) is Some,
    ensures
        first_named(names, name) == first_named(names.take(n), name),
    decreases names.len() - n,
{
    if n == names.len() {
        assert(names.take(n) =~= names);
    } else {
        assert(names.take(n + 1).drop_last() =~= names.take(n));
        first_named_stays(names, name, n + 1);
    }
}

fn record_top_level(
    names: &mut Vec<DeclaredName>,
    name: &str,
    description: &'static str,
) -> (out: Result<(), ToolError>)
    requires
        take_names(crate::data::views(old(names)@)) is Ok,
    ensures
        crate::error::outcome(out) == take_names(
            crate::data::views(old(names)@) + top_level(name@, description@),
        ),
        out is Ok ==> crate::data::views(
            final(names)@,
        ) == crate::data::views(old(names)@) + top_level(
            name@,
            description@,
        ),
{
    let declared = DeclaredName {
        name: name.to_owned(),
        origin: DeclaredNameOrigin::TopLevel { description },
    };
    proof {
        let before = crate::data::views(names@);
        assert(before.push(declared@) =~= before + top_level(name@, description@));
    }
    record_name(names, declared)
}

fn record_members(
    names: &mut Vec<DeclaredName>,
    namespace: &CodexNamespaceToolParam,
) -> (out: Result<(), ToolError>)
    requires
        take_names(crate::data::views(old(names)@)) is Ok,
    ensures
        crate::error::outcome(out) == take_names(
            crate::data::views(old(names)@) + member_declared_names(
                namespace@.name,
                namespace@.tools,
            ),
        ),
        out is Ok ==> crate::data::views(final(names)@) == crate::data::views(old(names)@)
            + member_declared_names(namespace@.name, namespace@.tools),
{
    let ghost before = crate::data::views(names@);
    let ghost members = namespace@.tools;
    let mut i: usize = 0;
    proof {
        assert(before + member_declared_names(namespace@.name, members.take(0)) =~= before);
    }
    while i < namespace.tools.len()
        invariant
            i <= namespace.tools@.len(),
            members == crate::data::views(namespace.tools@),
            members == namespace@.tools,
            before == crate::data::views(old(names)@),
            take_names(crate::data::views(names@)) is Ok,
            crate::data::views(names@) == before + member_declared_names(
                namespace@.name,
                members.take(i as int),
            ),
        decreases namespace.tools@.len() - i,
    {
        proof {
            assert(members.take(i + 1).drop_last() =~= members.take(i as int));
        }
        match &namespace.tools[i] {
            CodexNamespaceMember::Function(function) => {
                let name = model_visible_namespace_member_name(
                    namespace.name.as_str(),
                    function.name.as_str(),
                );
                let declared = DeclaredName {
                    name,
                    origin: DeclaredNameOrigin::NamespaceMember {
                        namespace: namespace.name.clone(),
                        member: function.name.clone(),
                    },
                };
                proof {
                    let now = member_declared_names(namespace@.name, members.take(i as int));
                    let next = member_declared_names(namespace@.name, members.take(i + 1));
                    assert(next == now.push(declared@));
                    assert((before + now).push(declared@) =~= before + next);
                }
                match record_name(names, declared) {
                    Err(e) => {
                        proof {
                            member_names_prefix(namespace@.name, members, i + 1);
                            let next = member_declared_names(namespace@.name, members.take(i + 1));
                            let more = choose|more: Seq<DeclaredNameView>|
                                member_declared_names(
                                    namespace@.name,
                                    members,
                                ) == #[trigger] (next + more);
                            take_names_prefix(before + next, more);
                            assert(before + next + more =~= before + (next + more));
                        }
                        return Err(e);
                    },
                    Ok(()) => {},
                }
            },
            CodexNamespaceMember::Unknown => {},
        }
        i = i + 1;
    }
    proof {
        assert(members.take(members.len() as int) =~= members);
    }
    Ok(())
}

/// Checks the exact names that public declarations expose to the model: an
/// error at the first that an earlier declaration took.
///
/// The names come from the declarations alone; what MCP servers list is not
/// among them.
pub fn validate_model_visible_declared_names(
    tools: &Vec<ResponsesTool>,
) -> (out: Result<(), ToolError>)
    ensures
        crate::error::outcome(out) == take_names(declared_names(crate::data::views(tools@))),
{
    let mut names: Vec<DeclaredName> = Vec::new();
    let ghost all = crate::data::views(tools@);
    let mut i: usize = 0;
    proof {
        assert(crate::data::views(names@) =~= declared_names(all.take(0)));
    }
    while i < tools.len()
        invariant
            i <= tools@.len(),
            all == crate::data::views(tools@),
            take_names(crate::data::views(names@)) is Ok,
            crate::data::views(names@) == declared_names(all.take(i as int)),
        decreases tools@.len() - i,
    {
        proof {
            assert(all.take(i + 1).drop_last() =~= all.take(i as int));
        }
        let ghost now = crate::data::views(names@);
        let step = match &tools[i] {
            ResponsesTool::Function(f) => record_top_level(
                &mut names,
                f.name.as_str(),
                "function tool",
            ),
            ResponsesTool::Custom(c) => record_top_level(
                &mut names,
                c.name.as_str(),
                "custom tool",
            ),
            ResponsesTool::WebSearch(_) => record_top_level(
                &mut names,
                "web_search",
                "web search tool",
            ),
            ResponsesTool::FileSearch(_) => record_top_level(
                &mut names,
                "file_search",
                "file search tool",
            ),
            ResponsesTool::CodeInterpreter(_) => record_top_level(
                &mut names,
                "code_interpreter",
                "code interpreter tool",
            ),
            ResponsesTool::Namespace(namespace) => record_members(&mut names, namespace),
            ResponsesTool::ToolSearch(_) | ResponsesTool::Mcp(_) | ResponsesTool::Unknown => {
                proof {
                    assert(now + tool_declared_names(tools@[i as int]@) =~= now);
                }
                Ok(())
            },
        };
        match step {
            Err(e) => {
                proof {
                    declared_names_prefix(all, i + 1);
                    let next = declared_names(all.take(i + 1));
                    let more = choose|more: Seq<DeclaredNameView>|
                        declared_names(all) == #[trigger] (next + more);
                    take_names_prefix(next, more);
                }
                return Err(e);
            },
            Ok(()) => {},
        }
        i = i + 1;
    }
    proof {
        assert(all.take(all.len() as int) =~= all);
    }
    Ok(())
}

/// Where the names of the declaration at a place begin among all names.
pub open spec fn names_from(tools: Seq<ResponsesToolView>, p: int) -> int {
    declared_names(tools.take(p)).len() as int
}

pub proof fn declared_name_at(tools: Seq<ResponsesToolView>, p: int, k: int)
    requires
        0 <= p < tools.len(),
        0 <= k < tool_declared_names(tools[p]).len(),
    ensures
        0 <= names_from(tools, p) + k < declared_names(tools).len(),
        declared_names(tools)[names_from(tools, p) + k]
            == tool_declared_names(tools[p])[k],
    decreases tools.len(),
{
    let rest = tools.drop_last();
    if p < rest.len() {
        declared_name_at(rest, p, k);
        assert(rest.take(p) =~= tools.take(p));
        assert(rest[p] == tools[p]);
    } else {
        assert(tools.take(p) =~= rest);
    }
}

pub proof fn names_grow(tools: Seq<ResponsesToolView>, p: int, r: int)
    requires
        0 <= p < r <= tools.len(),
    ensures
        names_from(tools, p) + tool_declared_names(tools[p]).len() <= names_from(
            tools,
            r,
        ),
    decreases r - p,
{
    assert(tools.take(r).drop_last() =~= tools.take(r - 1));
    if p < r - 1 {
        names_grow(tools, p, r - 1);
    }
}

/// Two declarations do not give one name.
pub proof fn names_of_two(tools: Seq<ResponsesToolView>, p: int, k: int, r: int, l: int)
    requires
        take_names(declared_names(tools)) is Ok,
        0 <= p < tools.len(),
        0 <= r < tools.len(),
        0 <= k < tool_declared_names(tools[p]).len(),
        0 <= l < tool_declared_names(tools[r]).len(),
        tool_declared_names(tools[p])[k].name
            == tool_declared_names(tools[r])[l].name,
    ensures
        p == r && k == l,
{
    names_accepted_iff_distinct(declared_names(tools));
    declared_name_at(tools, p, k);
    declared_name_at(tools, r, l);
    if p < r {
        names_grow(tools, p, r);
    } else if r < p {
        names_grow(tools, r, p);
    }
    let names = declared_names(tools);
    let i = names_from(tools, p) + k;
    let j = names_from(tools, r) + l;
    if i < j {
        assert(names[i].name != names[j].name);
    } else if j < i {
        assert(names[j].name != names[i].name);
    }
}

/// Where the name of a member stands among its namespace's.
pub open spec fn member_place(
    namespace: Seq<char>,
    members: Seq<CodexNamespaceMemberView>,
    q: int,
) -> int {
    member_declared_names(namespace, members.take(q)).len() as int
}

pub proof fn member_name_at(namespace: Seq<char>, members: Seq<CodexNamespaceMemberView>, q: int)
    requires
        0 <= q < members.len(),
        members[q] is Function,
    ensures
        0 <= member_place(namespace, members, q) < member_declared_names(
            namespace,
            members,
        ).len(),
        member_declared_names(namespace, members)[member_place(
            namespace,
            members,
            q,
        )].name == member_name(namespace, members[q]->Function_0.name),
    decreases members.len(),
{
    let rest = members.drop_last();
    if q < rest.len() {
        member_name_at(namespace, rest, q);
        assert(rest.take(q) =~= members.take(q));
        assert(rest[q] == members[q]);
    } else {
        assert(members.take(q) =~= rest);
    }
}

pub proof fn member_places_grow(
    namespace: Seq<char>,
    members: Seq<CodexNamespaceMemberView>,
    q: int,
    r: int,
)
    requires
        0 <= q < r <= members.len(),
        members[q] is Function,
    ensures
        member_place(namespace, members, q) < member_place(namespace, members, r),
    decreases r - q,
{
    assert(members.take(r).drop_last() =~= members.take(r - 1));
    if q < r - 1 {
        member_places_grow(namespace, members, q, r - 1);
    }
}

} // verus!
