//! Output items that are being streamed.
use vstd::prelude::*;

#[allow(unused_imports)]
use crate::data::{copy_opt, same_opt, Data};
#[allow(unused_imports)]
use crate::items::{
    CompactionItem, CompactionItemView, CustomToolCall, CustomToolCallView, FunctionToolCall,
    FunctionToolCallView, McpCall, McpCallView, McpListTools, McpListToolsView, OutputMessage,
    OutputMessageView, ReasoningOutput, ReasoningOutputView, ToolSearchCall, ToolSearchCallView,
    WebSearchCall, WebSearchCallView,
};

verus! {

/// An output item that is being streamed, with the text or arguments gathered so far.
#[derive(Clone, PartialEq)]
pub enum InFlight {
    Message { item: OutputMessage, text: String },
    Reasoning { item: ReasoningOutput, text: String },
    FunctionCall { item: FunctionToolCall, arguments: String },
    CustomToolCall { item: CustomToolCall, input: String },
    WebSearchCall { item: Option<WebSearchCall> },
    McpCall { item: McpCall },
    McpListTools { item: McpListTools },
    ToolSearchCall(ToolSearchCall),
    Compaction { item: CompactionItem },
}

/// The view of a [`InFlight`].
#[verifier::ext_equal]
pub enum InFlightView {
    Message { item: OutputMessageView, text: Seq<char> },
    Reasoning { item: ReasoningOutputView, text: Seq<char> },
    FunctionCall { item: FunctionToolCallView, arguments: Seq<char> },
    CustomToolCall { item: CustomToolCallView, input: Seq<char> },
    WebSearchCall { item: Option<WebSearchCallView> },
    McpCall { item: McpCallView },
    McpListTools { item: McpListToolsView },
    ToolSearchCall(ToolSearchCallView),
    Compaction { item: CompactionItemView },
}

impl View for InFlight {
    type V = InFlightView;

    open spec fn view(&self) -> InFlightView {
        match *self {
            InFlight::Message { item, text } => InFlightView::Message {
                item: item@,
                text: text@,
            },
            InFlight::Reasoning { item, text } => InFlightView::Reasoning {
                item: item@,
                text: text@,
            },
            InFlight::FunctionCall { item, arguments } => InFlightView::FunctionCall {
                item: item@,
                arguments: arguments@,
            },
            InFlight::CustomToolCall { item, input } => InFlightView::CustomToolCall {
                item: item@,
                input: input@,
            },
            InFlight::WebSearchCall { item } => InFlightView::WebSearchCall {
                item: crate::data::opt_view(item),
            },
            InFlight::McpCall { item } => InFlightView::McpCall {
                item: item@,
            },
            InFlight::McpListTools { item } => InFlightView::McpListTools {
                item: item@,
            },
            InFlight::ToolSearchCall(x) => InFlightView::ToolSearchCall(x@),
            InFlight::Compaction { item } => InFlightView::Compaction {
                item: item@,
            },
        }
    }
}

impl Data for InFlight {
    fn copied(&self) -> (out: InFlight) {
        match self {
            InFlight::Message { item, text } => InFlight::Message {
                item: item.copied(),
                text: text.copied(),
            },
            InFlight::Reasoning { item, text } => InFlight::Reasoning {
                item: item.copied(),
                text: text.copied(),
            },
            InFlight::FunctionCall { item, arguments } => InFlight::FunctionCall {
                item: item.copied(),
                arguments: arguments.copied(),
            },
            InFlight::CustomToolCall { item, input } => InFlight::CustomToolCall {
                item: item.copied(),
                input: input.copied(),
            },
            InFlight::WebSearchCall { item } => InFlight::WebSearchCall {
                item: copy_opt(item),
            },
            InFlight::McpCall { item } => InFlight::McpCall {
                item: item.copied(),
            },
            InFlight::McpListTools { item } => InFlight::McpListTools {
                item: item.copied(),
            },
            InFlight::ToolSearchCall(x) => InFlight::ToolSearchCall(x.copied()),
            InFlight::Compaction { item } => InFlight::Compaction {
                item: item.copied(),
            },
        }
    }

    fn same(&self, other: &InFlight) -> (yes: bool) {
        match (self, other) {
            (
                InFlight::Message { item: a_item, text: a_text },
                InFlight::Message { item: b_item, text: b_text },
            ) => {
                a_item.same(b_item)
                && a_text.same(b_text)
            },
            (
                InFlight::Reasoning { item: a_item, text: a_text },
                InFlight::Reasoning { item: b_item, text: b_text },
            ) => {
                a_item.same(b_item)
                && a_text.same(b_text)
            },
            (
                InFlight::FunctionCall { item: a_item, arguments: a_arguments },
                InFlight::FunctionCall { item: b_item, arguments: b_arguments },
            ) => {
                a_item.same(b_item)
                && a_arguments.same(b_arguments)
            },
            (
                InFlight::CustomToolCall { item: a_item, input: a_input },
                InFlight::CustomToolCall { item: b_item, input: b_input },
            ) => {
                a_item.same(b_item)
                && a_input.same(b_input)
            },
            (
                InFlight::WebSearchCall { item: a_item },
                InFlight::WebSearchCall { item: b_item },
            ) => {
                same_opt(a_item, b_item)
            },
            (InFlight::McpCall { item: a_item }, InFlight::McpCall { item: b_item }) => {
                a_item.same(b_item)
            },
            (InFlight::McpListTools { item: a_item }, InFlight::McpListTools { item: b_item }) => {
                a_item.same(b_item)
            },
            (InFlight::ToolSearchCall(a), InFlight::ToolSearchCall(b)) => a.same(b),
            (InFlight::Compaction { item: a_item }, InFlight::Compaction { item: b_item }) => {
                a_item.same(b_item)
            },
            _ => false,
        }
    }
}

/// An item in flight and its place among the output items.
#[derive(Clone, PartialEq)]
pub struct InFlightEntry {
    pub output_index: u32,
    pub item: InFlight,
}

/// The view of a [`InFlightEntry`].
#[verifier::ext_equal]
pub struct InFlightEntryView {
    pub output_index: u32,
    pub item: InFlightView,
}

impl View for InFlightEntry {
    type V = InFlightEntryView;

    open spec fn view(&self) -> InFlightEntryView {
        InFlightEntryView {
            output_index: self.output_index,
            item: self.item@,
        }
    }
}

impl Data for InFlightEntry {
    fn copied(&self) -> (out: InFlightEntry) {
        InFlightEntry {
            output_index: self.output_index,
            item: self.item.copied(),
        }
    }

    fn same(&self, other: &InFlightEntry) -> (yes: bool) {
        self.output_index == other.output_index
            && self.item.same(&other.item)
    }
}

/// `indexmap`'s map, which keeps its keys in insertion order.
#[verifier::external_type_specification]
#[verifier::external_body]
#[verifier::reject_recursive_types(K)]
#[verifier::reject_recursive_types(V)]
#[verifier::reject_recursive_types(S)]
pub struct ExIndexMap<K, V, S>(indexmap::IndexMap<K, V, S>);

/// The entries of a map, in the order that it keeps them.
pub uninterp spec fn in_order(map: indexmap::IndexMap<String, usize>) -> Seq<(Seq<char>, usize)>;

/// The first place of a key, from `i` on.
pub open spec fn key_place<T>(entries: Seq<(Seq<char>, T)>, key: Seq<char>, i: int) -> Option<int>
    decreases entries.len() - i,
{
    if i < 0 || i >= entries.len() {
        None
    } else if entries[i].0 == key {
        Some(i)
    } else {
        key_place(entries, key, i + 1)
    }
}

/// Calls `IndexMap::new`: a map without entries.
#[verifier::external_body]
fn new_index() -> (map: indexmap::IndexMap<String, usize>)
    ensures
        in_order(map) == Seq::<(Seq<char>, usize)>::empty(),
{
    indexmap::IndexMap::new()
}

/// Calls `IndexMap::insert`: a key that is there keeps its place and gets the new
/// value; a new key comes last.
#[verifier::external_body]
fn index_insert(map: &mut indexmap::IndexMap<String, usize>, key: String, value: usize)
    ensures
        in_order(*final(map)) == (match key_place(in_order(*old(map)), key@, 0) {
            Some(i) => in_order(*old(map)).update(i, (key@, value)),
            None => in_order(*old(map)).push((key@, value)),
        }),
{
    map.insert(key, value);
}

/// Calls `IndexMap::get`: the value of a key, where the key is there.
#[verifier::external_body]
fn index_get(map: &indexmap::IndexMap<String, usize>, key: &str) -> (value: Option<usize>)
    ensures
        value == (match key_place(in_order(*map), key@, 0) {
            Some(i) => Some(in_order(*map)[i].1),
            None => None,
        }),
{
    map.get(key).copied()
}

/// Calls `IndexMap::get_index`: the key at a place.
#[verifier::external_body]
fn index_key(map: &indexmap::IndexMap<String, usize>, at: usize) -> (key: Option<String>)
    ensures
        match key {
            Some(k) => at < in_order(*map).len() && k@ == in_order(*map)[at as int].0,
            None => at >= in_order(*map).len(),
        },
{
    map.get_index(at).map(|entry| entry.0.clone())
}

/// The items in flight by their keys, in insertion order.
pub struct InFlightItems {
    index: indexmap::IndexMap<String, usize>,
    entries: Vec<InFlightEntry>,
}

spec fn keyed_view(index: Seq<(Seq<char>, usize)>, entries: Seq<InFlightEntry>) -> Seq<
    (Seq<char>, InFlightEntryView),
> {
    Seq::new(entries.len(), |i: int| (index[i].0, entries[i]@))
}

impl View for InFlightItems {
    type V = Seq<(Seq<char>, InFlightEntryView)>;

    closed spec fn view(&self) -> Seq<(Seq<char>, InFlightEntryView)> {
        keyed_view(in_order(self.index), self.entries@)
    }
}

proof fn key_place_bounds<T>(entries: Seq<(Seq<char>, T)>, key: Seq<char>, i: int)
    requires
        0 <= i,
    ensures
        key_place(
            entries,
            key,
            i,
        ) matches Some(k) ==> i <= k < entries.len() && entries[k].0 == key,
        key_place(entries, key, i) is None ==> forall|k: int|
            i <= k < entries.len() ==> (#[trigger] entries[k]).0 != key,
    decreases entries.len() - i,
{
    if i < entries.len() && entries[i].0 != key {
        key_place_bounds(entries, key, i + 1);
    }
}

proof fn key_place_same<A, B>(a: Seq<(Seq<char>, A)>, b: Seq<(Seq<char>, B)>, key: Seq<char>, i: int)
    requires
        0 <= i,
        a.len() == b.len(),
        forall|k: int| 0 <= k < a.len() ==> (#[trigger] a[k]).0 == b[k].0,
    ensures
        key_place(a, key, i) == key_place(b, key, i),
    decreases a.len() - i,
{
    if i < a.len() {
        assert(a[i].0 == b[i].0);
        key_place_same(a, b, key, i + 1);
    }
}

/// The items with an entry for a key: in the key's place where it has one, else
/// at the end.
pub open spec fn with_entry(
    items: Seq<(Seq<char>, InFlightEntryView)>,
    key: Seq<char>,
    entry: InFlightEntryView,
) -> Seq<(Seq<char>, InFlightEntryView)> {
    match key_place(items, key, 0) {
        Some(i) => items.update(i, (key, entry)),
        None => items.push((key, entry)),
    }
}

impl InFlightItems {
    #[verifier::type_invariant]
    spec fn well_formed(self) -> bool {
        &&& in_order(self.index).len() == self.entries@.len()
        &&& forall|i: int| 0 <= i < self.entries@.len() ==> (#[trigger] in_order(self.index)[i]).1 == i
    }

    /// No items.
    pub fn new() -> (items: InFlightItems)
        ensures
            items@ == Seq::<(Seq<char>, InFlightEntryView)>::empty(),
    {
        let items = InFlightItems { index: new_index(), entries: Vec::new() };
        proof {
            assert(items@ =~= Seq::<(Seq<char>, InFlightEntryView)>::empty());
        }
        items
    }

    /// The number of items.
    pub fn len(&self) -> (n: usize)
        ensures
            n == self@.len(),
    {
        self.entries.len()
    }

    /// Whether there are no items.
    pub fn is_empty(&self) -> (yes: bool)
        ensures
            yes == (self@.len() == 0),
    {
        self.entries.len() == 0
    }

    /// The place of a key.
    pub fn position(&self, key: &str) -> (at: Option<usize>)
        ensures
            match at {
                Some(i) => key_place(self@, key@, 0) == Some(i as int) && i < self@.len(),
                None => key_place(self@, key@, 0) is None,
            },
    {
        proof {
            use_type_invariant(self);
            key_place_same(in_order(self.index), self@, key@, 0);
            key_place_bounds(in_order(self.index), key@, 0);
        }
        index_get(&self.index, key)
    }

    /// The item of a key.
    pub fn get(&self, key: &str) -> (entry: Option<&InFlightEntry>)
        ensures
            match key_place(self@, key@, 0) {
                Some(i) => entry matches Some(e) && e@ == self@[i].1,
                None => entry is None,
            },
    {
        match self.position(key) {
            Some(i) => Some(self.at(i)),
            None => None,
        }
    }

    /// The item at a place.
    pub fn at(&self, at: usize) -> (entry: &InFlightEntry)
        requires
            at < self@.len(),
        ensures
            entry@ == self@[at as int].1,
    {
        &self.entries[at]
    }

    /// The key at a place.
    pub fn key_at(&self, at: usize) -> (key: String)
        requires
            at < self@.len(),
        ensures
            key@ == self@[at as int].0,
    {
        proof {
            use_type_invariant(self);
        }
        match index_key(&self.index, at) {
            Some(key) => key,
            None => String::new(),
        }
    }

    /// Takes all items out, in order.
    pub fn take_all(&mut self) -> (entries: Vec<InFlightEntry>)
        ensures
            final(self)@ == Seq::<(Seq<char>, InFlightEntryView)>::empty(),
            crate::data::views(entries@) == old(self)@.map_values(
                |e: (Seq<char>, InFlightEntryView)| e.1,
            ),
    {
        let mut taken = InFlightItems::new();
        core::mem::swap(self, &mut taken);
        let InFlightItems { index: _, entries } = taken;
        proof {
            assert(crate::data::views(entries@) =~= old(self)@.map_values(
                |e: (Seq<char>, InFlightEntryView)| e.1,
            ));
        }
        entries
    }

    /// Puts an item in: in the key's place where it has one, else at the end.
    pub fn insert(&mut self, key: String, entry: InFlightEntry)
        ensures
            final(self)@ == with_entry(old(self)@, key@, entry@),
    {
        proof {
            use_type_invariant(&*self);
            key_place_bounds(self@, key@, 0);
            key_place_same(in_order(self.index), self@, key@, 0);
        }
        let place = self.position(key.as_str());
        let ghost expected = with_entry(self@, key@, entry@);
        let mut taken = InFlightItems::new();
        core::mem::swap(self, &mut taken);
        let InFlightItems { index, entries } = taken;
        let mut index = index;
        let mut entries = entries;
        match place {
            Some(i) => {
                index_insert(&mut index, key, i);
                entries.set(i, entry);
            },
            None => {
                let n: usize = entries.len();
                index_insert(&mut index, key, n);
                entries.push(entry);
            },
        }
        proof {
            assert(keyed_view(in_order(index), entries@) =~= expected);
        }
        *self = InFlightItems { index, entries };
    }

    /// Takes the item at a place out and leaves an empty web search there.
    pub fn take_item(&mut self, at: usize) -> (item: InFlight)
        requires
            at < old(self)@.len(),
        ensures
            item@ == old(self)@[at as int].1.item,
            final(self)@ == old(self)@.update(
                at as int,
                (
                    old(self)@[at as int].0,
                    InFlightEntryView {
                        item: InFlightView::WebSearchCall { item: None },
                        ..old(self)@[at as int].1
                    },
                ),
            ),
    {
        proof {
            use_type_invariant(&*self);
        }
        let ghost before = self@;
        let mut taken = InFlightItems::new();
        core::mem::swap(self, &mut taken);
        let InFlightItems { index, entries } = taken;
        let mut entries = entries;
        let ghost all = entries@;
        let InFlightEntry { output_index, item } = entries.remove(at);
        let hole = InFlightEntry { output_index, item: InFlight::WebSearchCall { item: None } };
        entries.insert(at, hole);
        proof {
            assert(entries@ =~= all.update(at as int, hole));
            assert(keyed_view(in_order(index), entries@) =~= before.update(
                at as int,
                (before[at as int].0, hole@),
            ));
        }
        *self = InFlightItems { index, entries };
        item
    }

    /// Puts an item at a place, with the key and the output place that are there.
    pub fn put_item(&mut self, at: usize, item: InFlight)
        requires
            at < old(self)@.len(),
        ensures
            final(self)@ == with_item(old(self)@, at as int, item@),
    {
        proof {
            use_type_invariant(&*self);
        }
        let ghost before = self@;
        let mut taken = InFlightItems::new();
        core::mem::swap(self, &mut taken);
        let InFlightItems { index, entries } = taken;
        let mut entries = entries;
        let output_index: u32 = entries[at].output_index;
        let entry = InFlightEntry { output_index, item };
        let ghost all = entries@;
        entries.set(at, entry);
        proof {
            assert(keyed_view(in_order(index), entries@) =~= with_item(before, at as int, item@));
        }
        *self = InFlightItems { index, entries };
    }
}

/// The items with another item at a place, under the same key.
pub open spec fn with_item(
    items: Seq<(Seq<char>, InFlightEntryView)>,
    at: int,
    item: InFlightView,
) -> Seq<(Seq<char>, InFlightEntryView)> {
    items.update(at, (items[at].0, InFlightEntryView { item, ..items[at].1 }))
}

/// What is told of an item in flight where it is logged: its kind, and nothing that it holds.
pub open spec fn kind_text(item: InFlightView) -> Seq<char> {
    match item {
        InFlightView::Message { .. } => "InFlight::Message { .. }"@,
        InFlightView::Reasoning { .. } => "InFlight::Reasoning { .. }"@,
        InFlightView::FunctionCall { .. } => "InFlight::FunctionCall { .. }"@,
        InFlightView::CustomToolCall { .. } => "InFlight::CustomToolCall { .. }"@,
        InFlightView::WebSearchCall { .. } => "InFlight::WebSearchCall { .. }"@,
        InFlightView::McpCall { .. } => "InFlight::McpCall { .. }"@,
        InFlightView::McpListTools { .. } => "InFlight::McpListTools { .. }"@,
        InFlightView::ToolSearchCall(_) => "InFlight::ToolSearchCall(..)"@,
        InFlightView::Compaction { .. } => "InFlight::Compaction { .. }"@,
    }
}

impl InFlight {
    /// What is told of this item where it is logged.
    pub fn summary(&self) -> (text: &'static str)
        ensures
            text@ == kind_text(self@),
    {
        match self {
            InFlight::Message { .. } => "InFlight::Message { .. }",
            InFlight::Reasoning { .. } => "InFlight::Reasoning { .. }",
            InFlight::FunctionCall { .. } => "InFlight::FunctionCall { .. }",
            InFlight::CustomToolCall { .. } => "InFlight::CustomToolCall { .. }",
            InFlight::WebSearchCall { .. } => "InFlight::WebSearchCall { .. }",
            InFlight::McpCall { .. } => "InFlight::McpCall { .. }",
            InFlight::McpListTools { .. } => "InFlight::McpListTools { .. }",
            InFlight::ToolSearchCall(_) => "InFlight::ToolSearchCall(..)",
            InFlight::Compaction { .. } => "InFlight::Compaction { .. }",
        }
    }
}

} // verus!
