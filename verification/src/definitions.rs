//! Definitions that tool searches load, and what is known of each while a
//! request's history is read.
use vstd::prelude::*;
#[allow(unused_imports)]
use vstd::string::*;

#[allow(unused_imports)]
use crate::data::{copy_opt, copy_opt_vec, copy_vec, same_opt_vec, Data};
#[allow(unused_imports)]
use crate::error::{config_error, ToolError, ToolErrorView};
#[allow(unused_imports)]
use crate::json::{Json, JsonObject, JsonView};
use crate::names::model_visible_namespace_member_name;
use crate::tables::{Keys, Table};
use crate::text::{concat, concat3, is_blank, same_text};
use crate::tools::{CodexNamespaceMember, CodexNamespaceToolParam, FunctionToolParam, ResponsesTool};
#[allow(unused_imports)]
use crate::tools::{
    CodexNamespaceMemberView, CodexNamespaceToolParamView, FunctionToolParamView, McpToolParamView,
    ResponsesToolView,
};
use crate::wire::ToJson;
use crate::wire_tools::function_param_to_fields;

verus! {

/// The public identity of a definition that a tool search may load.
#[derive(Debug, Clone, PartialEq)]
pub enum LoadedToolIdentity {
    Function(String),
    Namespace(String),
    Mcp(String),
}

/// The view of a [`LoadedToolIdentity`].
#[verifier::ext_equal]
pub enum LoadedToolIdentityView {
    Function(Seq<char>),
    Namespace(Seq<char>),
    Mcp(Seq<char>),
}

impl View for LoadedToolIdentity {
    type V = LoadedToolIdentityView;

    open spec fn view(&self) -> LoadedToolIdentityView {
        match *self {
            LoadedToolIdentity::Function(x) => LoadedToolIdentityView::Function(x@),
            LoadedToolIdentity::Namespace(x) => LoadedToolIdentityView::Namespace(x@),
            LoadedToolIdentity::Mcp(x) => LoadedToolIdentityView::Mcp(x@),
        }
    }
}

impl Data for LoadedToolIdentity {
    fn copied(&self) -> (out: LoadedToolIdentity) {
        match self {
            LoadedToolIdentity::Function(x) => LoadedToolIdentity::Function(x.copied()),
            LoadedToolIdentity::Namespace(x) => LoadedToolIdentity::Namespace(x.copied()),
            LoadedToolIdentity::Mcp(x) => LoadedToolIdentity::Mcp(x.copied()),
        }
    }

    fn same(&self, other: &LoadedToolIdentity) -> (yes: bool) {
        match (self, other) {
            (LoadedToolIdentity::Function(a), LoadedToolIdentity::Function(b)) => a.same(b),
            (LoadedToolIdentity::Namespace(a), LoadedToolIdentity::Namespace(b)) => a.same(b),
            (LoadedToolIdentity::Mcp(a), LoadedToolIdentity::Mcp(b)) => a.same(b),
            _ => false,
        }
    }
}

/// What is known of a member of a namespace.
#[derive(Debug, Clone, PartialEq)]
pub struct NamespaceMemberRecord {
    pub name: String,
    pub canonical: Json,
    pub public_member_index: usize,
    pub loaded: bool,
}

/// The view of a [`NamespaceMemberRecord`].
#[verifier::ext_equal]
pub struct NamespaceMemberRecordView {
    pub name: Seq<char>,
    pub canonical: JsonView,
    pub public_member_index: nat,
    pub loaded: bool,
}

impl View for NamespaceMemberRecord {
    type V = NamespaceMemberRecordView;

    open spec fn view(&self) -> NamespaceMemberRecordView {
        NamespaceMemberRecordView {
            name: self.name@,
            canonical: self.canonical@,
            public_member_index: self.public_member_index as nat,
            loaded: self.loaded,
        }
    }
}

impl Data for NamespaceMemberRecord {
    fn copied(&self) -> (out: NamespaceMemberRecord) {
        NamespaceMemberRecord {
            name: self.name.copied(),
            canonical: self.canonical.copied(),
            public_member_index: self.public_member_index,
            loaded: self.loaded,
        }
    }

    fn same(&self, other: &NamespaceMemberRecord) -> (yes: bool) {
        self.name.same(&other.name)
            && self.canonical.same(&other.canonical)
            && self.public_member_index == other.public_member_index
            && self.loaded == other.loaded
    }
}

/// What is known of a definition.
#[derive(Clone, PartialEq)]
pub struct DefinitionRecord {
    pub identity: LoadedToolIdentity,
    /// What later definitions of the same name are compared with.
    pub canonical: Json,
    pub public_index: usize,
    pub loaded: bool,
    pub members: Option<Vec<NamespaceMemberRecord>>,
}

/// The view of a [`DefinitionRecord`].
#[verifier::ext_equal]
pub struct DefinitionRecordView {
    pub identity: LoadedToolIdentityView,
    pub canonical: JsonView,
    pub public_index: nat,
    pub loaded: bool,
    pub members: Option<Seq<NamespaceMemberRecordView>>,
}

impl View for DefinitionRecord {
    type V = DefinitionRecordView;

    open spec fn view(&self) -> DefinitionRecordView {
        DefinitionRecordView {
            identity: self.identity@,
            canonical: self.canonical@,
            public_index: self.public_index as nat,
            loaded: self.loaded,
            members: crate::data::opt_views(self.members),
        }
    }
}

impl Data for DefinitionRecord {
    fn copied(&self) -> (out: DefinitionRecord) {
        DefinitionRecord {
            identity: self.identity.copied(),
            canonical: self.canonical.copied(),
            public_index: self.public_index,
            loaded: self.loaded,
            members: copy_opt_vec(&self.members),
        }
    }

    fn same(&self, other: &DefinitionRecord) -> (yes: bool) {
        self.identity.same(&other.identity)
            && self.canonical.same(&other.canonical)
            && self.public_index == other.public_index
            && self.loaded == other.loaded
            && same_opt_vec(&self.members, &other.members)
    }
}

/// The definitions of a request, as they are while its history is read.
pub struct Definitions {
    pub public_tools: Vec<ResponsesTool>,
    pub definitions: Vec<DefinitionRecord>,
    pub loaded_public_tools: Vec<ResponsesTool>,
    pub withheld_function_names: Keys<String>,
    pub mcp_load_positions: Table<String, usize>,
    pub prior_unknown_namespace_calls: Keys<(String, String)>,
    pub unqualified_call_positions: Table<String, usize>,
}

/// The view of [`Definitions`].
#[verifier::ext_equal]
pub struct DefinitionsView {
    pub public_tools: Seq<ResponsesToolView>,
    pub definitions: Seq<DefinitionRecordView>,
    pub loaded_public_tools: Seq<ResponsesToolView>,
    pub withheld_function_names: Set<Seq<char>>,
    pub mcp_load_positions: Map<Seq<char>, usize>,
    pub prior_unknown_namespace_calls: Set<(Seq<char>, Seq<char>)>,
    pub unqualified_call_positions: Map<Seq<char>, usize>,
}

impl View for Definitions {
    type V = DefinitionsView;

    open spec fn view(&self) -> DefinitionsView {
        DefinitionsView {
            public_tools: crate::data::views(self.public_tools@),
            definitions: crate::data::views(self.definitions@),
            loaded_public_tools: crate::data::views(self.loaded_public_tools@),
            withheld_function_names: self.withheld_function_names@,
            mcp_load_positions: self.mcp_load_positions@,
            prior_unknown_namespace_calls: self.prior_unknown_namespace_calls@,
            unqualified_call_positions: self.unqualified_call_positions@,
        }
    }
}

/// The name of an identity.
pub open spec fn identity_name(identity: LoadedToolIdentityView) -> Seq<char> {
    match identity {
        LoadedToolIdentityView::Function(name) => name,
        LoadedToolIdentityView::Namespace(name) => name,
        LoadedToolIdentityView::Mcp(name) => name,
    }
}

/// What messages call the kind of an identity.
pub open spec fn identity_kind(identity: LoadedToolIdentityView) -> Seq<char> {
    match identity {
        LoadedToolIdentityView::Function(_) => "function"@,
        LoadedToolIdentityView::Namespace(_) => "namespace"@,
        LoadedToolIdentityView::Mcp(_) => "MCP server"@,
    }
}

impl LoadedToolIdentity {
    /// The name of this identity.
    pub fn name(&self) -> (name: &String)
        ensures
            name@ == identity_name(self@),
    {
        match self {
            LoadedToolIdentity::Function(name) => name,
            LoadedToolIdentity::Namespace(name) => name,
            LoadedToolIdentity::Mcp(name) => name,
        }
    }

    /// What messages call the kind of this identity.
    pub fn kind(&self) -> (kind: &'static str)
        ensures
            kind@ == identity_kind(self@),
    {
        match self {
            LoadedToolIdentity::Function(_) => "function",
            LoadedToolIdentity::Namespace(_) => "namespace",
            LoadedToolIdentity::Mcp(_) => "MCP server",
        }
    }
}

/// An identity that is not blank and not reserved.
pub open spec fn checked_identity(identity: LoadedToolIdentityView) -> Result<
    Option<LoadedToolIdentityView>,
    ToolErrorView,
> {
    if crate::text::blank(identity_name(identity)) {
        Err(
            ToolErrorView::Config(
                identity_kind(identity) + " definition identity must not be blank"@,
            ),
        )
    } else if identity !is Mcp && identity_name(identity) == "tool_search"@ {
        Err(
            ToolErrorView::Config(
                "model-visible tool name 'tool_search' is reserved while tool search is active"@,
            ),
        )
    } else {
        Ok(Some(identity))
    }
}

/// The identity of a declaration: none where a search cannot load its kind, an
/// error where the name is blank or reserved.
pub open spec fn identity_of(tool: ResponsesToolView) -> Result<
    Option<LoadedToolIdentityView>,
    ToolErrorView,
> {
    match tool {
        ResponsesToolView::Function(f) => checked_identity(
            LoadedToolIdentityView::Function(f.name),
        ),
        ResponsesToolView::Namespace(n) => checked_identity(
            LoadedToolIdentityView::Namespace(n.name),
        ),
        ResponsesToolView::Mcp(m) => checked_identity(LoadedToolIdentityView::Mcp(m.server_label)),
        _ => Ok(None),
    }
}

/// The view of an outcome that may hold nothing.
pub open spec fn opt_outcome<T: View>(out: Result<Option<T>, ToolError>) -> Result<
    Option<T::V>,
    ToolErrorView,
> {
    match out {
        Ok(o) => Ok(crate::data::opt_view(o)),
        Err(e) => Err(e@),
    }
}

/// The identity of a declaration.
pub fn loaded_tool_identity(
    tool: &ResponsesTool,
) -> (out: Result<Option<LoadedToolIdentity>, ToolError>)
    ensures
        opt_outcome(out) == identity_of(tool@),
{
    let identity = match tool {
        ResponsesTool::Function(f) => LoadedToolIdentity::Function(f.name.clone()),
        ResponsesTool::Namespace(n) => LoadedToolIdentity::Namespace(n.name.clone()),
        ResponsesTool::Mcp(m) => LoadedToolIdentity::Mcp(m.server_label.clone()),
        _ => {
            return Ok(None);
        },
    };
    if is_blank(identity.name().as_str()) {
        return Err(
            ToolError::Config(concat(identity.kind(), " definition identity must not be blank")),
        );
    }
    let reserved = match &identity {
        LoadedToolIdentity::Mcp(_) => false,
        _ => same_text(identity.name().as_str(), "tool_search"),
    };
    if reserved {
        return Err(
            config_error(
                "model-visible tool name 'tool_search' is reserved while tool search is active",
            ),
        );
    }
    Ok(Some(identity))
}

/// A definition without the members of a namespace.
pub open spec fn without_members(tool: ResponsesToolView) -> ResponsesToolView {
    match tool {
        ResponsesToolView::Namespace(n) => ResponsesToolView::Namespace(
            CodexNamespaceToolParamView { tools: Seq::empty(), ..n },
        ),
        t => t,
    }
}

/// The part of a definition that must not change: all of it but the members of
/// a namespace. Equal numbers have one form in it.
pub open spec fn canonical_of(tool: ResponsesToolView) -> JsonView {
    crate::json::settled(<ResponsesTool as ToJson>::json_of(without_members(tool)))
}

/// The part of a definition that must not change.
pub fn canonical_definition(tool: &ResponsesTool) -> (canonical: Json)
    ensures
        canonical@ == canonical_of(tool@),
{
    match tool {
        ResponsesTool::Namespace(n) => {
            let projected = ResponsesTool::Namespace(
                CodexNamespaceToolParam {
                    name: n.name.clone(),
                    description: copy_opt(&n.description),
                    tools: Vec::new(),
                    extra: n.extra.copied(),
                },
            );
            proof {
                assert(projected@->Namespace_0.tools =~= Seq::empty());
            }
            projected.to_json().settle()
        },
        t => t.to_json().settle(),
    }
}

/// What of a namespace's member must not change. Equal numbers have one form in it.
pub open spec fn canonical_member(function: FunctionToolParamView) -> JsonView {
    crate::json::settled(JsonView::Object(crate::wire_tools::function_param_fields(function)))
}

/// What of a namespace's member must not change.
pub fn canonical_namespace_member(function: &FunctionToolParam) -> (canonical: Json)
    ensures
        canonical@ == canonical_member(function@),
{
    Json::Object(function_param_to_fields(function)).settle()
}

/// A declaration without what must not be stored: credentials, and what the
/// server listed.
pub open spec fn sanitized(tool: ResponsesToolView) -> ResponsesToolView {
    match tool {
        ResponsesToolView::Mcp(m) => ResponsesToolView::Mcp(
            McpToolParamView {
                authorization: None,
                headers: Map::empty(),
                discovered_tools: Seq::empty(),
                ..m
            },
        ),
        t => t,
    }
}

/// A declaration without what must not be stored.
pub fn sanitize_for_persistence(tool: &ResponsesTool) -> (out: ResponsesTool)
    ensures
        out@ == sanitized(tool@),
{
    match tool {
        ResponsesTool::Mcp(m) => {
            let mut m = m.copied();
            m.authorization = None;
            m.headers = JsonObject::new();
            m.discovered_tools = Vec::new();
            proof {
                assert(m@.discovered_tools =~= Seq::empty());
            }
            ResponsesTool::Mcp(m)
        },
        t => t.copied(),
    }
}

/// The place of the first definition of a name, from `i` on.
pub open spec fn find_record(
    definitions: Seq<DefinitionRecordView>,
    name: Seq<char>,
    i: int,
) -> Option<
    int,
>
    decreases definitions.len() - i,
{
    if i < 0 || i >= definitions.len() {
        None
    } else if identity_name(definitions[i].identity) == name {
        Some(i)
    } else {
        find_record(definitions, name, i + 1)
    }
}

/// The place of the first definition of a name.
pub fn record_position(definitions: &Vec<DefinitionRecord>, name: &str) -> (at: Option<usize>)
    ensures
        match at {
            Some(i) => find_record(
                crate::data::views(definitions@),
                name@,
                0,
            ) == Some(i as int) && i
                < definitions@.len(),
            None => find_record(crate::data::views(definitions@), name@, 0) is None,
        },
{
    let mut i: usize = 0;
    while i < definitions.len()
        invariant
            i <= definitions@.len(),
            find_record(crate::data::views(definitions@), name@, 0) == find_record(
                crate::data::views(definitions@),
                name@,
                i as int,
            ),
        decreases definitions@.len() - i,
    {
        if same_text(definitions[i].identity.name().as_str(), name) {
            return Some(i);
        }
        i = i + 1;
    }
    None
}

/// The place of the first member of a name, from `i` on.
pub open spec fn find_member(
    members: Seq<NamespaceMemberRecordView>,
    name: Seq<char>,
    i: int,
) -> Option<
    int,
>
    decreases members.len() - i,
{
    if i < 0 || i >= members.len() {
        None
    } else if members[i].name == name {
        Some(i)
    } else {
        find_member(members, name, i + 1)
    }
}

/// The place of the first member of a name.
pub fn member_position(members: &Vec<NamespaceMemberRecord>, name: &str) -> (at: Option<usize>)
    ensures
        match at {
            Some(i) => find_member(crate::data::views(members@), name@, 0) == Some(i as int) && i
                < members@.len(),
            None => find_member(crate::data::views(members@), name@, 0) is None,
        },
{
    let mut i: usize = 0;
    while i < members.len()
        invariant
            i <= members@.len(),
            find_member(crate::data::views(members@), name@, 0) == find_member(
                crate::data::views(members@),
                name@,
                i as int,
            ),
        decreases members@.len() - i,
    {
        if same_text(members[i].name.as_str(), name) {
            return Some(i);
        }
        i = i + 1;
    }
    None
}

/// Whether every member is loaded.
pub open spec fn all_loaded(members: Seq<NamespaceMemberRecordView>) -> bool {
    forall|i: int| 0 <= i < members.len() ==> (#[trigger] members[i]).loaded
}

/// Whether every member is loaded.
pub fn all_members_loaded(members: &Vec<NamespaceMemberRecord>) -> (yes: bool)
    ensures
        yes == all_loaded(crate::data::views(members@)),
{
    let mut i: usize = 0;
    while i < members.len()
        invariant
            i <= members@.len(),
            forall|j: int| 0 <= j < i ==> (#[trigger] crate::data::views(members@)[j]).loaded,
        decreases members@.len() - i,
    {
        if !members[i].loaded {
            proof {
                assert(!crate::data::views(members@)[i as int].loaded);
            }
            return false;
        }
        i = i + 1;
    }
    true
}

/// The records of a namespace's first members, or the error at the first that
/// is no function or repeats a name.
pub open spec fn member_records(
    namespace: CodexNamespaceToolParamView,
    dynamically_loaded: bool,
    n: int,
) -> Result<Seq<NamespaceMemberRecordView>, ToolErrorView>
    decreases n,
{
    if n <= 0 {
        Ok(Seq::empty())
    } else {
        match member_records(namespace, dynamically_loaded, n - 1) {
            Err(e) => Err(e),
            Ok(records) => match namespace.tools[n - 1] {
                CodexNamespaceMemberView::Unknown => Err(
                    ToolErrorView::Config(
                        "tool-search namespaces may contain only function members"@,
                    ),
                ),
                CodexNamespaceMemberView::Function(f) => if find_member(
                    records,
                    f.name,
                    0,
                ) is Some {
                    Err(
                        ToolErrorView::Config(
                            "duplicate namespace member identity '"@ + namespace.name + "."@ + f.name
                                + "'"@,
                        ),
                    )
                } else {
                    Ok(
                        records.push(
                            NamespaceMemberRecordView {
                                name: f.name,
                                canonical: canonical_member(f),
                                public_member_index: (n - 1) as nat,
                                loaded: dynamically_loaded || f.defer_loading != Some(true),
                            },
                        ),
                    )
                },
            },
        }
    }
}

proof fn member_records_stop(namespace: CodexNamespaceToolParamView, dynamically_loaded: bool, n: int, m: int)
    requires
        n <= m,
        member_records(namespace, dynamically_loaded, n) is Err,
    ensures
        member_records(
            namespace,
            dynamically_loaded,
            m,
        ) == member_records(namespace, dynamically_loaded, n),
    decreases m - n,
{
    if n < m {
        member_records_stop(namespace, dynamically_loaded, n, m - 1);
    }
}

/// The records of a namespace's members.
pub open spec fn namespace_records(
    namespace: CodexNamespaceToolParamView,
    dynamically_loaded: bool,
) -> Result<Seq<NamespaceMemberRecordView>, ToolErrorView> {
    if namespace.tools.len() == 0 {
        Err(
            ToolErrorView::Config(
                "tool-search namespaces must contain at least one function member"@,
            ),
        )
    } else {
        member_records(namespace, dynamically_loaded, namespace.tools.len() as int)
    }
}

/// The view of an outcome that holds a list.
pub open spec fn list_outcome<T: View>(out: Result<Vec<T>, ToolError>) -> Result<
    Seq<T::V>,
    ToolErrorView,
> {
    match out {
        Ok(v) => Ok(crate::data::views(v@)),
        Err(e) => Err(e@),
    }
}

/// The records of a namespace's members.
pub fn namespace_member_records(
    namespace: &CodexNamespaceToolParam,
    dynamically_loaded: bool,
) -> (out: Result<Vec<NamespaceMemberRecord>, ToolError>)
    ensures
        list_outcome(out) == namespace_records(namespace@, dynamically_loaded),
{
    if namespace.tools.len() == 0 {
        return Err(
            config_error("tool-search namespaces must contain at least one function member"),
        );
    }
    let mut records: Vec<NamespaceMemberRecord> = Vec::new();
    let mut i: usize = 0;
    proof {
        assert(crate::data::views(records@) =~= Seq::empty());
    }
    while i < namespace.tools.len()
        invariant
            i <= namespace.tools@.len(),
            member_records(namespace@, dynamically_loaded, i as int) == Ok::<_, ToolErrorView>(
                crate::data::views(records@),
            ),
        decreases namespace.tools@.len() - i,
    {
        proof {
            assert(namespace@.tools[i as int] == namespace.tools@[i as int]@);
        }
        match &namespace.tools[i] {
            CodexNamespaceMember::Unknown => {
                proof {
                    member_records_stop(
                        namespace@,
                        dynamically_loaded,
                        i + 1,
                        namespace.tools@.len() as int,
                    );
                }
                return Err(
                    config_error("tool-search namespaces may contain only function members"),
                );
            },
            CodexNamespaceMember::Function(f) => {
                if member_position(&records, f.name.as_str()).is_some() {
                    let mut text = "duplicate namespace member identity '".to_owned();
                    text.append(namespace.name.as_str());
                    text.append(".");
                    text.append(f.name.as_str());
                    text.append("'");
                    proof {
                        member_records_stop(
                            namespace@,
                            dynamically_loaded,
                            i + 1,
                            namespace.tools@.len() as int,
                        );
                    }
                    return Err(ToolError::Config(text));
                }
                let deferred = match f.defer_loading {
                    Some(d) => d,
                    None => false,
                };
                let record = NamespaceMemberRecord {
                    name: f.name.clone(),
                    canonical: canonical_namespace_member(f),
                    public_member_index: i,
                    loaded: dynamically_loaded || !deferred,
                };
                proof {
                    crate::data::views_push(records@, record);
                }
                records.push(record);
            },
        }
        i = i + 1;
    }
    Ok(records)
}

/// The record of a definition that stands at `public_index`.
pub open spec fn record_of(
    tool: ResponsesToolView,
    identity: LoadedToolIdentityView,
    public_index: nat,
    dynamically_loaded: bool,
) -> Result<DefinitionRecordView, ToolErrorView> {
    match tool {
        ResponsesToolView::Namespace(n) => match namespace_records(n, dynamically_loaded) {
            Err(e) => Err(e),
            Ok(members) => Ok(
                DefinitionRecordView {
                    identity,
                    canonical: canonical_of(tool),
                    public_index,
                    loaded: all_loaded(members),
                    members: Some(members),
                },
            ),
        },
        ResponsesToolView::Function(_) | ResponsesToolView::Mcp(_) => Ok(
            DefinitionRecordView {
                identity,
                canonical: canonical_of(tool),
                public_index,
                loaded: dynamically_loaded,
                members: None,
            },
        ),
        _ => Err(
            ToolErrorView::Config("tool-search definition record received an unsupported tool"@),
        ),
    }
}

/// The record of a definition that stands at `public_index`.
pub fn definition_record(
    tool: &ResponsesTool,
    identity: LoadedToolIdentity,
    public_index: usize,
    dynamically_loaded: bool,
) -> (out: Result<DefinitionRecord, ToolError>)
    ensures
        crate::error::outcome(out) == record_of(
            tool@,
            identity@,
            public_index as nat,
            dynamically_loaded,
        ),
{
    match tool {
        ResponsesTool::Namespace(n) => {
            let members = match namespace_member_records(n, dynamically_loaded) {
                Ok(m) => m,
                Err(e) => {
                    return Err(e);
                },
            };
            let loaded = all_members_loaded(&members);
            Ok(
                DefinitionRecord {
                    identity,
                    canonical: canonical_definition(tool),
                    public_index,
                    loaded,
                    members: Some(members),
                },
            )
        },
        ResponsesTool::Function(_) | ResponsesTool::Mcp(_) => Ok(
            DefinitionRecord {
                identity,
                canonical: canonical_definition(tool),
                public_index,
                loaded: dynamically_loaded,
                members: None,
            },
        ),
        _ => Err(config_error("tool-search definition record received an unsupported tool")),
    }
}

/// The records of a request's first declarations, or the error at the first that
/// is not valid or repeats a name.
pub open spec fn initial_records(tools: Seq<ResponsesToolView>, n: int) -> Result<
    Seq<DefinitionRecordView>,
    ToolErrorView,
>
    decreases n,
{
    if n <= 0 {
        Ok(Seq::empty())
    } else {
        match initial_records(tools, n - 1) {
            Err(e) => Err(e),
            Ok(records) => match identity_of(tools[n - 1]) {
                Err(e) => Err(e),
                Ok(None) => Ok(records),
                Ok(Some(identity)) => if find_record(records, identity_name(identity), 0) is Some {
                    Err(
                        ToolErrorView::Config(
                            "duplicate tool-search definition identity '"@ + identity_name(identity)
                                + "'"@,
                        ),
                    )
                } else {
                    match record_of(tools[n - 1], identity, (n - 1) as nat, false) {
                        Err(e) => Err(e),
                        Ok(record) => Ok(records.push(record)),
                    }
                },
            },
        }
    }
}

proof fn initial_records_stop(tools: Seq<ResponsesToolView>, n: int, m: int)
    requires
        n <= m,
        initial_records(tools, n) is Err,
    ensures
        initial_records(tools, m) == initial_records(tools, n),
    decreases m - n,
{
    if n < m {
        initial_records_stop(tools, n, m - 1);
    }
}

/// The records of a request's declarations.
pub fn index_initial_definitions(tools: &Vec<ResponsesTool>) -> (out: Result<
    Vec<DefinitionRecord>,
    ToolError,
>)
    ensures
        list_outcome(out) == initial_records(crate::data::views(tools@), tools@.len() as int),
{
    let mut records: Vec<DefinitionRecord> = Vec::new();
    let mut i: usize = 0;
    let ghost all = crate::data::views(tools@);
    proof {
        assert(crate::data::views(records@) =~= Seq::empty());
    }
    while i < tools.len()
        invariant
            i <= tools@.len(),
            all == crate::data::views(tools@),
            initial_records(all, i as int) == Ok::<_, ToolErrorView>(crate::data::views(records@)),
        decreases tools@.len() - i,
    {
        let ghost n = tools@.len() as int;
        match loaded_tool_identity(&tools[i]) {
            Err(e) => {
                proof {
                    initial_records_stop(all, i + 1, n);
                }
                return Err(e);
            },
            Ok(None) => {},
            Ok(Some(identity)) => {
                if record_position(&records, identity.name().as_str()).is_some() {
                    let text = concat3(
                        "duplicate tool-search definition identity '",
                        identity.name().as_str(),
                        "'",
                    );
                    proof {
                        initial_records_stop(all, i + 1, n);
                    }
                    return Err(ToolError::Config(text));
                }
                match definition_record(&tools[i], identity, i, false) {
                    Err(e) => {
                        proof {
                            initial_records_stop(all, i + 1, n);
                        }
                        return Err(e);
                    },
                    Ok(record) => {
                        proof {
                            crate::data::views_push(records@, record);
                        }
                        records.push(record);
                    },
                }
            },
        }
        i = i + 1;
    }
    Ok(records)
}

/// The names of a namespace's members whose schemas are withheld at first.
pub open spec fn withheld_members(
    namespace: Seq<char>,
    members: Seq<CodexNamespaceMemberView>,
) -> Set<Seq<char>>
    decreases members.len(),
{
    if members.len() == 0 {
        Set::empty()
    } else {
        let rest = withheld_members(namespace, members.drop_last());
        match members.last() {
            CodexNamespaceMemberView::Function(f) if f.defer_loading == Some(true) => rest.insert(
                crate::names::member_name(namespace, f.name),
            ),
            _ => rest,
        }
    }
}

/// The names of the functions whose schemas are withheld at first.
pub open spec fn initially_withheld(tools: Seq<ResponsesToolView>) -> Set<Seq<char>>
    decreases tools.len(),
{
    if tools.len() == 0 {
        Set::empty()
    } else {
        let rest = initially_withheld(tools.drop_last());
        match tools.last() {
            ResponsesToolView::Function(f) if f.defer_loading == Some(true) => rest.insert(f.name),
            ResponsesToolView::Namespace(n) => rest.union(withheld_members(n.name, n.tools)),
            _ => rest,
        }
    }
}

/// The names of the functions whose schemas are withheld at first.
pub fn initial_withheld_function_names(tools: &Vec<ResponsesTool>) -> (names: Keys<String>)
    ensures
        names@ == initially_withheld(crate::data::views(tools@)),
{
    let mut names: Keys<String> = Keys::new();
    let ghost all = crate::data::views(tools@);
    let mut i: usize = 0;
    while i < tools.len()
        invariant
            i <= tools@.len(),
            all == crate::data::views(tools@),
            names@ == initially_withheld(all.take(i as int)),
        decreases tools@.len() - i,
    {
        proof {
            assert(all.take(i + 1).drop_last() =~= all.take(i as int));
        }
        match &tools[i] {
            ResponsesTool::Function(f) => {
                if f.defer_loading == Some(true) {
                    names.insert(f.name.clone());
                }
            },
            ResponsesTool::Namespace(n) => {
                let ghost before = names@;
                let ghost members = crate::data::views(n.tools@);
                let mut j: usize = 0;
                proof {
                    assert(before.union(withheld_members(n.name@, members.take(0))) =~= before);
                }
                while j < n.tools.len()
                    invariant
                        j <= n.tools@.len(),
                        members == crate::data::views(n.tools@),
                        names@ == before.union(withheld_members(n.name@, members.take(j as int))),
                    decreases n.tools@.len() - j,
                {
                    proof {
                        assert(members.take(j + 1).drop_last() =~= members.take(j as int));
                    }
                    let ghost now = names@;
                    match &n.tools[j] {
                        CodexNamespaceMember::Function(f) => {
                            if f.defer_loading == Some(true) {
                                let name = model_visible_namespace_member_name(
                                    n.name.as_str(),
                                    f.name.as_str(),
                                );
                                names.insert(name);
                            }
                        },
                        CodexNamespaceMember::Unknown => {},
                    }
                    proof {
                        assert(names@ =~= before.union(withheld_members(n.name@, members.take(j + 1))));
                    }
                    j = j + 1;
                }
                proof {
                    assert(members.take(members.len() as int) =~= members);
                }
            },
            _ => {},
        }
        i = i + 1;
    }
    proof {
        assert(all.take(all.len() as int) =~= all);
    }
    names
}

/// What is said of a call in the history of a function that was not loaded.
pub open spec fn withheld_history_call() -> ToolErrorView {
    ToolErrorView::Config("request history calls a function before its definition is loaded"@)
}

/// What is said of a call in the history of a function that was not loaded.
pub fn withheld_function_history_call() -> (error: ToolError)
    ensures
        error@ == withheld_history_call(),
{
    config_error("request history calls a function before its definition is loaded")
}

/// What is said where the state of a namespace contradicts itself.
pub open spec fn inconsistent() -> ToolErrorView {
    ToolErrorView::Config("namespace member availability state is inconsistent"@)
}

/// Whether a member that is not known yet has a name that an earlier call in the
/// history used.
pub open spec fn resolves_prior_call(
    namespace: Seq<char>,
    member: CodexNamespaceMemberView,
    known: Seq<NamespaceMemberRecordView>,
    prior: Set<(Seq<char>, Seq<char>)>,
    unqualified: Map<Seq<char>, usize>,
) -> bool {
    member matches CodexNamespaceMemberView::Function(f) && find_member(
        known,
        f.name,
        0,
    ) is None && (
    prior.contains((namespace, f.name)) || unqualified.contains_key(
        crate::names::member_name(namespace, f.name),
    ))
}

/// Whether any member that is not known yet resolves an earlier call.
pub open spec fn resolve_prior_calls(
    namespace: CodexNamespaceToolParamView,
    known: Seq<NamespaceMemberRecordView>,
    prior: Set<(Seq<char>, Seq<char>)>,
    unqualified: Map<Seq<char>, usize>,
) -> bool {
    exists|i: int|
        0 <= i < namespace.tools.len() && resolves_prior_call(
            namespace.name,
            #[trigger] namespace.tools[i],
            known,
            prior,
            unqualified,
        )
}

/// Refuses a namespace whose new members would resolve earlier calls.
pub fn ensure_namespace_members_do_not_resolve_prior_calls(
    namespace: &CodexNamespaceToolParam,
    known: &Vec<NamespaceMemberRecord>,
    prior: &Keys<(String, String)>,
    unqualified: &Table<String, usize>,
) -> (out: Result<(), ToolError>)
    ensures
        out is Err == resolve_prior_calls(
            namespace@,
            crate::data::views(known@),
            prior@,
            unqualified@,
        ),
        out matches Err(e) ==> e@ == withheld_history_call(),
{
    let mut i: usize = 0;
    while i < namespace.tools.len()
        invariant
            i <= namespace.tools@.len(),
            forall|j: int|
                0 <= j < i ==> !resolves_prior_call(
                    namespace@.name,
                    #[trigger] namespace@.tools[j],
                    crate::data::views(known@),
                    prior@,
                    unqualified@,
                ),
        decreases namespace.tools@.len() - i,
    {
        proof {
            assert(namespace@.tools[i as int] == namespace.tools@[i as int]@);
        }
        if let CodexNamespaceMember::Function(f) = &namespace.tools[i] {
            if member_position(known, f.name.as_str()).is_none() {
                let public = (namespace.name.clone(), f.name.clone());
                let flat = model_visible_namespace_member_name(
                    namespace.name.as_str(),
                    f.name.as_str(),
                );
                if prior.contains(&public) || unqualified.contains_key(&flat) {
                    return Err(withheld_function_history_call());
                }
            }
        }
        i = i + 1;
    }
    Ok(())
}

/// What loading the members of a namespace changes.
pub struct MemberLoad {
    pub tools: Vec<CodexNamespaceMember>,
    pub records: Vec<NamespaceMemberRecord>,
    pub withheld: Keys<String>,
    pub newly_loaded: Vec<CodexNamespaceMember>,
}

/// The view of a [`MemberLoad`].
#[verifier::ext_equal]
pub struct MemberLoadView {
    pub tools: Seq<CodexNamespaceMemberView>,
    pub records: Seq<NamespaceMemberRecordView>,
    pub withheld: Set<Seq<char>>,
    pub newly_loaded: Seq<CodexNamespaceMemberView>,
}

impl View for MemberLoad {
    type V = MemberLoadView;

    open spec fn view(&self) -> MemberLoadView {
        MemberLoadView {
            tools: crate::data::views(self.tools@),
            records: crate::data::views(self.records@),
            withheld: self.withheld@,
            newly_loaded: crate::data::views(self.newly_loaded@),
        }
    }
}

/// Loads one returned member: a known one must be the same as before and is
/// marked loaded, a new one is added.
pub open spec fn load_member(
    namespace: Seq<char>,
    member: CodexNamespaceMemberView,
    load: MemberLoadView,
) -> Result<MemberLoadView, ToolErrorView> {
    match member {
        CodexNamespaceMemberView::Unknown => Err(
            ToolErrorView::Config(
                "tool_search_output namespaces may contain only function members"@,
            ),
        ),
        CodexNamespaceMemberView::Function(f) => match find_member(load.records, f.name, 0) {
            Some(k) => {
                let record = load.records[k];
                if record.canonical != canonical_member(f) {
                    Err(
                        ToolErrorView::Config(
                            "loaded namespace member '"@ + namespace + "."@ + f.name
                                + "' conflicts with its existing schema, description, or configuration"@,
                        ),
                    )
                } else if record.loaded {
                    Ok(load)
                } else if record.public_member_index >= load.tools.len() {
                    Err(inconsistent())
                } else {
                    Ok(
                        MemberLoadView {
                            tools: load.tools,
                            records: load.records.update(
                                k,
                                NamespaceMemberRecordView { loaded: true, ..record },
                            ),
                            withheld: load.withheld.remove(
                                crate::names::member_name(namespace, f.name),
                            ),
                            newly_loaded: load.newly_loaded.push(
                                load.tools[record.public_member_index as int],
                            ),
                        },
                    )
                }
            },
            None => Ok(
                MemberLoadView {
                    tools: load.tools.push(member),
                    records: load.records.push(
                        NamespaceMemberRecordView {
                            name: f.name,
                            canonical: canonical_member(f),
                            public_member_index: load.tools.len(),
                            loaded: true,
                        },
                    ),
                    withheld: load.withheld,
                    newly_loaded: load.newly_loaded.push(member),
                },
            ),
        },
    }
}

/// Loads the first returned members, one after the other.
pub open spec fn load_members(
    returned: CodexNamespaceToolParamView,
    load: MemberLoadView,
    n: int,
) -> Result<MemberLoadView, ToolErrorView>
    decreases n,
{
    if n <= 0 {
        Ok(load)
    } else {
        match load_members(returned, load, n - 1) {
            Err(e) => Err(e),
            Ok(load) => load_member(returned.name, returned.tools[n - 1], load),
        }
    }
}

proof fn load_members_stop(returned: CodexNamespaceToolParamView, load: MemberLoadView, n: int, m: int)
    requires
        n <= m,
        load_members(returned, load, n) is Err,
    ensures
        load_members(returned, load, m) == load_members(returned, load, n),
    decreases m - n,
{
    if n < m {
        load_members_stop(returned, load, n, m - 1);
    }
}

fn load_one_member(
    namespace: &str,
    member: &CodexNamespaceMember,
    load: MemberLoad,
) -> (out: Result<MemberLoad, ToolError>)
    ensures
        crate::error::outcome(out) == load_member(namespace@, member@, load@),
{
    broadcast use crate::data::views_push;

    let f = match member {
        CodexNamespaceMember::Unknown => {
            return Err(
                config_error("tool_search_output namespaces may contain only function members"),
            );
        },
        CodexNamespaceMember::Function(f) => f,
    };
    let mut load = load;
    let ghost before = load@;
    match member_position(&load.records, f.name.as_str()) {
        Some(k) => {
            if !load.records[k].canonical.same(&canonical_namespace_member(f)) {
                let mut text = "loaded namespace member '".to_owned();
                text.append(namespace);
                text.append(".");
                text.append(f.name.as_str());
                text.append("' conflicts with its existing schema, description, or configuration");
                return Err(ToolError::Config(text));
            }
            if load.records[k].loaded {
                return Ok(load);
            }
            let at: usize = load.records[k].public_member_index;
            if at >= load.tools.len() {
                return Err(config_error("namespace member availability state is inconsistent"));
            }
            let mut record = load.records[k].copied();
            record.loaded = true;
            load.records.set(k, record);
            let flat = model_visible_namespace_member_name(namespace, f.name.as_str());
            load.withheld.remove(&flat);
            load.newly_loaded.push(load.tools[at].copied());
            proof {
                let expected = load_member(namespace@, member@, before)->Ok_0;
                assert(load@.records =~= expected.records);
                assert(load@ =~= expected);
            }
            Ok(load)
        },
        None => {
            let at: usize = load.tools.len();
            load.records.push(
                NamespaceMemberRecord {
                    name: f.name.clone(),
                    canonical: canonical_namespace_member(f),
                    public_member_index: at,
                    loaded: true,
                },
            );
            load.tools.push(member.copied());
            load.newly_loaded.push(member.copied());
            Ok(load)
        },
    }
}

/// Loads the returned members of a namespace that is known at place `at`.
pub open spec fn load_namespace(
    returned: CodexNamespaceToolParamView,
    at: int,
    st: DefinitionsView,
) -> Result<DefinitionsView, ToolErrorView> {
    let record = st.definitions[at];
    if returned.tools.len() == 0 {
        Err(
            ToolErrorView::Config(
                "tool_search_output namespaces must contain at least one function member"@,
            ),
        )
    } else if record.public_index >= st.public_tools.len() {
        Err(inconsistent())
    } else {
        match (st.public_tools[record.public_index as int], record.members) {
            (ResponsesToolView::Namespace(public), Some(members)) => if resolve_prior_calls(
                returned,
                members,
                st.prior_unknown_namespace_calls,
                st.unqualified_call_positions,
            ) {
                Err(withheld_history_call())
            } else {
                let load = MemberLoadView {
                    tools: public.tools,
                    records: members,
                    withheld: st.withheld_function_names,
                    newly_loaded: Seq::empty(),
                };
                match load_members(returned, load, returned.tools.len() as int) {
                    Err(e) => Err(e),
                    Ok(load) => Ok(
                        DefinitionsView {
                            public_tools: st.public_tools.update(
                                record.public_index as int,
                                ResponsesToolView::Namespace(
                                    CodexNamespaceToolParamView { tools: load.tools, ..public },
                                ),
                            ),
                            definitions: st.definitions.update(
                                at,
                                DefinitionRecordView {
                                    loaded: all_loaded(load.records),
                                    members: Some(load.records),
                                    ..record
                                },
                            ),
                            loaded_public_tools: if load.newly_loaded.len() == 0 {
                                st.loaded_public_tools
                            } else {
                                st.loaded_public_tools.push(
                                    ResponsesToolView::Namespace(
                                        CodexNamespaceToolParamView {
                                            tools: load.newly_loaded,
                                            ..public
                                        },
                                    ),
                                )
                            },
                            withheld_function_names: load.withheld,
                            ..st
                        },
                    ),
                }
            },
            (ResponsesToolView::Namespace(_), None) => Err(
                ToolErrorView::Config("namespace definition is missing prepared member state"@),
            ),
            _ => Err(
                ToolErrorView::Config(
                    "namespace identity conflicts with an existing non-namespace definition"@,
                ),
            ),
        }
    }
}

/// Loads the returned members of a namespace that is known at place `at`.
pub fn load_namespace_members(
    returned: &CodexNamespaceToolParam,
    at: usize,
    given: Definitions,
) -> (out: Result<Definitions, ToolError>)
    requires
        at < given.definitions@.len(),
    ensures
        crate::error::outcome(out) == load_namespace(returned@, at as int, given@),
{
    broadcast use crate::data::views_push;

    if returned.tools.len() == 0 {
        return Err(
            config_error("tool_search_output namespaces must contain at least one function member"),
        );
    }
    let mut st = given;
    let ghost before = st@;
    let public_index: usize = st.definitions[at].public_index;
    if public_index >= st.public_tools.len() {
        return Err(config_error("namespace member availability state is inconsistent"));
    }
    let public = match &st.public_tools[public_index] {
        ResponsesTool::Namespace(public) => public.copied(),
        _ => {
            return Err(
                config_error(
                    "namespace identity conflicts with an existing non-namespace definition",
                ),
            );
        },
    };
    let members = match &st.definitions[at].members {
        Some(members) => copy_vec(members),
        None => {
            return Err(config_error("namespace definition is missing prepared member state"));
        },
    };
    match ensure_namespace_members_do_not_resolve_prior_calls(
        returned,
        &members,
        &st.prior_unknown_namespace_calls,
        &st.unqualified_call_positions,
    ) {
        Err(e) => {
            return Err(e);
        },
        Ok(()) => {},
    }
    let mut load = MemberLoad {
        tools: copy_vec(&public.tools),
        records: members,
        withheld: st.withheld_function_names.copy(),
        newly_loaded: Vec::new(),
    };
    let ghost start = load@;
    proof {
        assert(start.newly_loaded =~= Seq::empty());
        assert(start.tools == public@.tools);
    }
    let mut i: usize = 0;
    while i < returned.tools.len()
        invariant
            i <= returned.tools@.len(),
            load_members(returned@, start, i as int) == Ok::<_, ToolErrorView>(load@),
            at < st.definitions@.len(),
            before == st@,
            before == given@,
            returned.tools@.len() > 0,
            public_index == before.definitions[at as int].public_index,
            public_index < before.public_tools.len(),
            before.public_tools[public_index as int] == ResponsesToolView::Namespace(public@),
            before.definitions[at as int].members == Some(start.records),
            start.tools == public@.tools,
            start.withheld == before.withheld_function_names,
            start.newly_loaded == Seq::<CodexNamespaceMemberView>::empty(),
            !resolve_prior_calls(
                returned@,
                start.records,
                before.prior_unknown_namespace_calls,
                before.unqualified_call_positions,
            ),
        decreases returned.tools@.len() - i,
    {
        proof {
            assert(returned@.tools[i as int] == returned.tools@[i as int]@);
        }
        match load_one_member(returned.name.as_str(), &returned.tools[i], load) {
            Ok(next) => {
                load = next;
            },
            Err(e) => {
                proof {
                    load_members_stop(returned@, start, i + 1, returned.tools@.len() as int);
                }
                return Err(e);
            },
        }
        i = i + 1;
    }
    let ghost done = load@;
    let loaded = all_members_loaded(&load.records);
    let MemberLoad { tools, records, withheld, newly_loaded } = load;
    if newly_loaded.len() > 0 {
        let mut subset = public.copied();
        subset.tools = newly_loaded;
        st.loaded_public_tools.push(ResponsesTool::Namespace(subset));
    }
    let mut public = public;
    public.tools = tools;
    st.public_tools.set(public_index, ResponsesTool::Namespace(public));
    let mut record = st.definitions[at].copied();
    record.loaded = loaded;
    record.members = Some(records);
    st.definitions.set(at, record);
    st.withheld_function_names = withheld;
    proof {
        let expected = load_namespace(returned@, at as int, before)->Ok_0;
        assert(st@.public_tools =~= expected.public_tools);
        assert(st@.definitions =~= expected.definitions);
        assert(st@.loaded_public_tools =~= expected.loaded_public_tools);
        assert(st@ =~= expected);
    }
    Ok(st)
}

/// What is said of a definition that was declared otherwise before.
pub open spec fn conflict(name: Seq<char>) -> ToolErrorView {
    ToolErrorView::Config(
        "loaded definition for identity '"@ + name
            + "' conflicts with its existing type, schema, description, or configuration"@,
    )
}

/// What is said of a definition that was declared otherwise before.
pub fn conflicting_definition(name: &str) -> (error: ToolError)
    ensures
        error@ == conflict(name@),
{
    ToolError::Config(
        concat3(
            "loaded definition for identity '",
            name,
            "' conflicts with its existing type, schema, description, or configuration",
        ),
    )
}

/// A table with a position for a key, unless it has one or there is no position.
pub open spec fn with_position(
    positions: Map<Seq<char>, usize>,
    key: Seq<char>,
    position: Option<usize>,
) -> Map<Seq<char>, usize> {
    match position {
        Some(p) => if positions.contains_key(key) {
            positions
        } else {
            positions.insert(key, p)
        },
        None => positions,
    }
}

/// Loads a definition that is known at place `at`: it must be the same as
/// before, and is marked loaded.
pub open spec fn load_known(
    tool: ResponsesToolView,
    identity: LoadedToolIdentityView,
    at: int,
    st: DefinitionsView,
    trusted: Set<LoadedToolIdentityView>,
    position: Option<usize>,
) -> Result<DefinitionsView, ToolErrorView> {
    let record = st.definitions[at];
    let name = identity_name(identity);
    if record.identity != identity || record.canonical != canonical_of(tool) {
        if record.identity == identity && tool is Mcp && trusted.contains(identity) && record.public_index
            < st.public_tools.len() && canonical_of(
            sanitized(st.public_tools[record.public_index as int]),
        ) == canonical_of(tool) {
            Ok(st)
        } else {
            Err(conflict(name))
        }
    } else if tool is Namespace {
        load_namespace(tool->Namespace_0, at, st)
    } else if record.loaded {
        Ok(st)
    } else if st.withheld_function_names.contains(name) && st.unqualified_call_positions.contains_key(
        name,
    ) {
        Err(withheld_history_call())
    } else if record.public_index >= st.public_tools.len() {
        Err(inconsistent())
    } else {
        let public = st.public_tools[record.public_index as int];
        let deferred_mcp = public matches ResponsesToolView::Mcp(m) && m.defer_loading == Some(true);
        Ok(
            DefinitionsView {
                definitions: st.definitions.update(
                    at,
                    DefinitionRecordView { loaded: true, ..record },
                ),
                loaded_public_tools: st.loaded_public_tools.push(public),
                withheld_function_names: st.withheld_function_names.remove(name),
                mcp_load_positions: if identity is Mcp && deferred_mcp {
                    with_position(st.mcp_load_positions, name, position)
                } else {
                    st.mcp_load_positions
                },
                ..st
            },
        )
    }
}

/// Loads a definition of a new name.
pub open spec fn load_new(
    tool: ResponsesToolView,
    identity: LoadedToolIdentityView,
    st: DefinitionsView,
    position: Option<usize>,
) -> Result<DefinitionsView, ToolErrorView> {
    let refused = match tool {
        ResponsesToolView::Function(f) => st.unqualified_call_positions.contains_key(f.name),
        ResponsesToolView::Namespace(n) => resolve_prior_calls(
            n,
            Seq::empty(),
            st.prior_unknown_namespace_calls,
            st.unqualified_call_positions,
        ),
        _ => false,
    };
    if refused {
        Err(withheld_history_call())
    } else {
        match record_of(tool, identity, st.public_tools.len(), true) {
            Err(e) => Err(e),
            Ok(record) => Ok(
                DefinitionsView {
                    public_tools: st.public_tools.push(tool),
                    definitions: st.definitions.push(record),
                    loaded_public_tools: st.loaded_public_tools.push(tool),
                    mcp_load_positions: if tool is Mcp {
                        with_position(st.mcp_load_positions, identity_name(identity), position)
                    } else {
                        st.mcp_load_positions
                    },
                    ..st
                },
            ),
        }
    }
}

/// Loads a definition that a tool search returned, at a position of the history.
pub open spec fn load_spec(
    tool: ResponsesToolView,
    st: DefinitionsView,
    trusted: Set<LoadedToolIdentityView>,
    position: Option<usize>,
) -> Result<DefinitionsView, ToolErrorView> {
    match identity_of(tool) {
        Err(e) => Err(e),
        Ok(None) => Err(
            ToolErrorView::Config("tool_search_output contains an unsupported tool definition"@),
        ),
        Ok(Some(identity)) => match find_record(st.definitions, identity_name(identity), 0) {
            Some(at) => load_known(tool, identity, at, st, trusted, position),
            None => load_new(tool, identity, st, position),
        },
    }
}

fn note_position(positions: &mut Table<String, usize>, key: &str, position: Option<usize>)
    ensures
        final(positions)@ == with_position(old(positions)@, key@, position),
{
    if let Some(p) = position {
        positions.insert_new(key.to_owned(), p);
    }
}

/// Loads a definition that a tool search returned, at a position of the history.
pub fn load_definition(
    tool: &ResponsesTool,
    st: Definitions,
    trusted: &Keys<LoadedToolIdentity>,
    position: Option<usize>,
) -> (out: Result<Definitions, ToolError>)
    ensures
        crate::error::outcome(out) == load_spec(tool@, st@, trusted@, position),
{
    broadcast use crate::data::views_push;

    let identity = match loaded_tool_identity(tool) {
        Err(e) => {
            return Err(e);
        },
        Ok(None) => {
            return Err(config_error("tool_search_output contains an unsupported tool definition"));
        },
        Ok(Some(identity)) => identity,
    };
    let mut st = st;
    let ghost before = st@;
    if let Some(at) = record_position(&st.definitions, identity.name().as_str()) {
        let canonical = canonical_definition(tool);
        let same_identity = st.definitions[at].identity.same(&identity);
        let public_index: usize = st.definitions[at].public_index;
        if !same_identity || !st.definitions[at].canonical.same(&canonical) {
            let is_mcp = match tool {
                ResponsesTool::Mcp(_) => true,
                _ => false,
            };
            if same_identity && is_mcp && trusted.contains(&identity) && public_index
                < st.public_tools.len() {
                let sanitized = sanitize_for_persistence(&st.public_tools[public_index]);
                if canonical_definition(&sanitized).same(&canonical) {
                    return Ok(st);
                }
            }
            return Err(conflicting_definition(identity.name().as_str()));
        }
        if let ResponsesTool::Namespace(returned) = tool {
            return load_namespace_members(returned, at, st);
        }
        if st.definitions[at].loaded {
            return Ok(st);
        }
        if st.withheld_function_names.contains(identity.name())
            && st.unqualified_call_positions.contains_key(identity.name()) {
            return Err(withheld_function_history_call());
        }
        if public_index >= st.public_tools.len() {
            return Err(config_error("namespace member availability state is inconsistent"));
        }
        let deferred_mcp = match &st.public_tools[public_index] {
            ResponsesTool::Mcp(m) => m.defer_loading == Some(true),
            _ => false,
        };
        if let LoadedToolIdentity::Mcp(label) = &identity {
            if deferred_mcp {
                note_position(&mut st.mcp_load_positions, label.as_str(), position);
            }
        }
        let mut record = st.definitions[at].copied();
        record.loaded = true;
        st.definitions.set(at, record);
        st.withheld_function_names.remove(identity.name());
        let public = st.public_tools[public_index].copied();
        st.loaded_public_tools.push(public);
        proof {
            let expected = load_known(
                tool@,
                identity@,
                at as int,
                before,
                trusted@,
                position,
            )->Ok_0;
            assert(st@.definitions =~= expected.definitions);
            assert(st@ =~= expected);
        }
        return Ok(st);
    }
    match tool {
        ResponsesTool::Function(f) => {
            if st.unqualified_call_positions.contains_key(&f.name) {
                return Err(withheld_function_history_call());
            }
        },
        ResponsesTool::Namespace(n) => {
            let known: Vec<NamespaceMemberRecord> = Vec::new();
            proof {
                assert(crate::data::views(known@) =~= Seq::empty());
            }
            match ensure_namespace_members_do_not_resolve_prior_calls(
                n,
                &known,
                &st.prior_unknown_namespace_calls,
                &st.unqualified_call_positions,
            ) {
                Err(e) => {
                    return Err(e);
                },
                Ok(()) => {},
            }
        },
        ResponsesTool::Mcp(_) => {
            note_position(&mut st.mcp_load_positions, identity.name().as_str(), position);
        },
        _ => {},
    }
    let public_index: usize = st.public_tools.len();
    match definition_record(tool, identity, public_index, true) {
        Err(e) => Err(e),
        Ok(record) => {
            st.public_tools.push(tool.copied());
            st.definitions.push(record);
            st.loaded_public_tools.push(tool.copied());
            Ok(st)
        },
    }
}

/// Whether a member is known as it is, and loaded.
pub open spec fn is_loaded_member(
    records: Seq<NamespaceMemberRecordView>,
    member: CodexNamespaceMemberView,
) -> bool {
    member matches CodexNamespaceMemberView::Function(f) && (find_member(records, f.name, 0) matches Some(
        k,
    ) && records[k].canonical == canonical_member(f) && records[k].loaded)
}

proof fn known_member_is_found(
    records: Seq<NamespaceMemberRecordView>,
    more: Seq<NamespaceMemberRecordView>,
    name: Seq<char>,
    i: int,
)
    requires
        0 <= i,
        records.len() <= more.len(),
        forall|j: int| 0 <= j < records.len() ==> (#[trigger] more[j]).name == records[j].name,
        find_member(records, name, i) is Some,
    ensures
        find_member(more, name, i) == find_member(records, name, i),
        i <= find_member(records, name, i)->0 < records.len(),
        records[find_member(records, name, i)->0].name == name,
    decreases records.len() - i,
{
    if records[i].name != name {
        known_member_is_found(records, more, name, i + 1);
    }
}

proof fn new_member_is_found(
    records: Seq<NamespaceMemberRecordView>,
    record: NamespaceMemberRecordView,
    i: int,
)
    requires
        0 <= i <= records.len(),
        find_member(records, record.name, i) is None,
    ensures
        find_member(records.push(record), record.name, i) == Some(records.len() as int),
    decreases records.len() - i,
{
    if i < records.len() {
        new_member_is_found(records, record, i + 1);
    }
}

proof fn member_gets_loaded(
    namespace: Seq<char>,
    member: CodexNamespaceMemberView,
    load: MemberLoadView,
    other: CodexNamespaceMemberView,
)
    requires
        load_member(namespace, member, load) is Ok,
    ensures
        is_loaded_member(load_member(namespace, member, load)->Ok_0.records, member),
        is_loaded_member(load.records, other) ==> is_loaded_member(
            load_member(namespace, member, load)->Ok_0.records,
            other,
        ),
{
    let after = load_member(namespace, member, load)->Ok_0;
    let f = member->Function_0;
    match find_member(load.records, f.name, 0) {
        Some(k) => {
            known_member_is_found(load.records, load.records, f.name, 0);
            known_member_is_found(load.records, after.records, f.name, 0);
        },
        None => {
            new_member_is_found(
                load.records,
                NamespaceMemberRecordView {
                    name: f.name,
                    canonical: canonical_member(f),
                    public_member_index: load.tools.len(),
                    loaded: true,
                },
                0,
            );
        },
    }
    if is_loaded_member(load.records, other) {
        known_member_is_found(load.records, after.records, other->Function_0.name, 0);
    }
}

proof fn members_get_loaded(returned: CodexNamespaceToolParamView, load: MemberLoadView, n: int)
    requires
        0 <= n <= returned.tools.len(),
        load_members(returned, load, n) is Ok,
    ensures
        forall|j: int|
            0 <= j < n ==> is_loaded_member(
                load_members(returned, load, n)->Ok_0.records,
                #[trigger] returned.tools[j],
            ),
    decreases n,
{
    if n > 0 {
        members_get_loaded(returned, load, n - 1);
        let before = load_members(returned, load, n - 1)->Ok_0;
        assert forall|j: int| 0 <= j < n implies is_loaded_member(
            load_members(returned, load, n)->Ok_0.records,
            #[trigger] returned.tools[j],
        ) by {
            member_gets_loaded(
                returned.name,
                returned.tools[n - 1],
                before,
                returned.tools[j],
            );
        }
    }
}

proof fn loaded_members_stay(returned: CodexNamespaceToolParamView, load: MemberLoadView, n: int)
    requires
        0 <= n <= returned.tools.len(),
        forall|j: int|
            0 <= j < n ==> is_loaded_member(load.records, #[trigger] returned.tools[j]),
    ensures
        load_members(returned, load, n) == Ok::<MemberLoadView, ToolErrorView>(load),
    decreases n,
{
    if n > 0 {
        loaded_members_stay(returned, load, n - 1);
        assert(is_loaded_member(load.records, returned.tools[n - 1]));
    }
}

proof fn new_members_are_loaded(namespace: CodexNamespaceToolParamView, n: int)
    requires
        0 <= n <= namespace.tools.len(),
        member_records(namespace, true, n) is Ok,
    ensures
        forall|j: int|
            0 <= j < n ==> is_loaded_member(
                member_records(namespace, true, n)->Ok_0,
                #[trigger] namespace.tools[j],
            ),
        all_loaded(member_records(namespace, true, n)->Ok_0),
    decreases n,
{
    if n > 0 {
        new_members_are_loaded(namespace, n - 1);
        let before = member_records(namespace, true, n - 1)->Ok_0;
        let after = member_records(namespace, true, n)->Ok_0;
        let f = namespace.tools[n - 1]->Function_0;
        new_member_is_found(before, after[before.len() as int], 0);
        assert(after =~= before.push(after[before.len() as int]));
        assert forall|j: int| 0 <= j < n implies is_loaded_member(
            after,
            #[trigger] namespace.tools[j],
        ) by {
            if j < n - 1 {
                assert(is_loaded_member(before, namespace.tools[j]));
                known_member_is_found(before, after, namespace.tools[j]->Function_0.name, 0);
            }
        }
    }
}

/// A namespace whose returned members are all loaded stays as it is.
proof fn loaded_namespace_stays(
    returned: CodexNamespaceToolParamView,
    at: int,
    st: DefinitionsView,
)
    requires
        0 <= at < st.definitions.len(),
        returned.tools.len() > 0,
        st.definitions[at].public_index < st.public_tools.len(),
        st.public_tools[st.definitions[at].public_index as int] is Namespace,
        st.definitions[at].members matches Some(members) && st.definitions[at].loaded == all_loaded(
            members,
        ) && forall|j: int|
            0 <= j < returned.tools.len() ==> is_loaded_member(
                members,
                #[trigger] returned.tools[j],
            ),
    ensures
        load_namespace(returned, at, st) == Ok::<DefinitionsView, ToolErrorView>(st),
{
    let record = st.definitions[at];
    let public = st.public_tools[record.public_index as int]->Namespace_0;
    let members = record.members->0;
    let load = MemberLoadView {
        tools: public.tools,
        records: members,
        withheld: st.withheld_function_names,
        newly_loaded: Seq::empty(),
    };
    loaded_members_stay(returned, load, returned.tools.len() as int);
    assert(!resolve_prior_calls(
        returned,
        members,
        st.prior_unknown_namespace_calls,
        st.unqualified_call_positions,
    ));
    let after = load_namespace(returned, at, st)->Ok_0;
    assert(after.public_tools =~= st.public_tools);
    assert(after.definitions =~= st.definitions);
    assert(after =~= st);
}

proof fn found_record_has_name(definitions: Seq<DefinitionRecordView>, name: Seq<char>, i: int)
    requires
        0 <= i,
        find_record(definitions, name, i) is Some,
    ensures
        i <= find_record(definitions, name, i)->0 < definitions.len(),
        identity_name(definitions[find_record(definitions, name, i)->0].identity) == name,
    decreases definitions.len() - i,
{
    if identity_name(definitions[i].identity) != name {
        found_record_has_name(definitions, name, i + 1);
    }
}

proof fn updated_record_is_found(
    definitions: Seq<DefinitionRecordView>,
    name: Seq<char>,
    at: int,
    record: DefinitionRecordView,
    i: int,
)
    requires
        0 <= i,
        find_record(definitions, name, i) == Some(at),
        0 <= at < definitions.len(),
        record.identity == definitions[at].identity,
    ensures
        find_record(definitions.update(at, record), name, i) == Some(at),
    decreases definitions.len() - i,
{
    if identity_name(definitions[i].identity) != name {
        updated_record_is_found(definitions, name, at, record, i + 1);
    }
}

proof fn added_record_is_found(
    definitions: Seq<DefinitionRecordView>,
    record: DefinitionRecordView,
    i: int,
)
    requires
        0 <= i <= definitions.len(),
        find_record(definitions, identity_name(record.identity), i) is None,
    ensures
        find_record(definitions.push(record), identity_name(record.identity), i) == Some(
            definitions.len() as int,
        ),
    decreases definitions.len() - i,
{
    if i < definitions.len() {
        added_record_is_found(definitions, record, i + 1);
    }
}

/// A definition that was just loaded can be loaded again, wherever in the history, and that
/// changes nothing.
pub proof fn loading_again_changes_nothing(
    tool: ResponsesToolView,
    st: DefinitionsView,
    trusted: Set<LoadedToolIdentityView>,
    position: Option<usize>,
    later: Option<usize>,
)
    requires
        load_spec(tool, st, trusted, position) is Ok,
    ensures
        load_spec(tool, load_spec(tool, st, trusted, position)->Ok_0, trusted, later)
            == load_spec(tool, st, trusted, position),
{
    let after = load_spec(tool, st, trusted, position)->Ok_0;
    let identity = identity_of(tool)->Ok_0->0;
    let name = identity_name(identity);
    match find_record(st.definitions, name, 0) {
        Some(at) => {
            found_record_has_name(st.definitions, name, 0);
            let record = st.definitions[at];
            if record.identity == identity && record.canonical == canonical_of(tool) {
                if let ResponsesToolView::Namespace(returned) = tool {
                    let public = st.public_tools[record.public_index as int]->Namespace_0;
                    let load = MemberLoadView {
                        tools: public.tools,
                        records: record.members->0,
                        withheld: st.withheld_function_names,
                        newly_loaded: Seq::empty(),
                    };
                    members_get_loaded(returned, load, returned.tools.len() as int);
                    updated_record_is_found(
                        st.definitions,
                        name,
                        at,
                        after.definitions[at],
                        0,
                    );
                    assert(after.definitions =~= st.definitions.update(at, after.definitions[at]));
                    loaded_namespace_stays(returned, at, after);
                } else if !record.loaded {
                    updated_record_is_found(
                        st.definitions,
                        name,
                        at,
                        after.definitions[at],
                        0,
                    );
                    assert(after.definitions =~= st.definitions.update(at, after.definitions[at]));
                }
            }
        },
        None => {
            let at = st.definitions.len() as int;
            let record = after.definitions[at];
            added_record_is_found(st.definitions, record, 0);
            assert(after.definitions =~= st.definitions.push(record));
            if let ResponsesToolView::Namespace(returned) = tool {
                new_members_are_loaded(returned, returned.tools.len() as int);
                loaded_namespace_stays(returned, at, after);
            }
        },
    }
}

} // verus!
