//! JSON values as plain data, with a mathematical view of each value.
//!
//! Parsing and printing go through `serde_json`; everything else is verified
//! code on [`Json`].
use vstd::prelude::*;

use crate::text::same_text;

verus! {

/// A JSON number, held as the text that `serde_json` prints for it.
///
/// The field is private: a number comes from parsed JSON or from an unsigned
/// integer, so the text is always one that `serde_json` reads back.
#[derive(Debug, Clone, PartialEq, Eq)]
pub struct JsonNumber {
    text: String,
}

/// A JSON value.
#[derive(Debug)]
pub enum Json {
    Null,
    Bool(bool),
    Number(JsonNumber),
    Text(String),
    Array(Vec<Json>),
    Object(JsonObject),
}

/// The fields of a JSON object. Where a key occurs twice the first entry counts.
#[derive(Debug)]
pub struct JsonObject {
    pub entries: Vec<(String, Json)>,
}

/// What a JSON value is, whatever order its objects hold their fields in.
pub enum JsonView {
    Null,
    Bool(bool),
    Number(Seq<char>),
    Text(Seq<char>),
    Array(Seq<JsonView>),
    Object(Map<Seq<char>, JsonView>),
}

impl View for JsonNumber {
    type V = Seq<char>;

    closed spec fn view(&self) -> Seq<char> {
        self.text@
    }
}

/// The view of a JSON value.
pub open spec fn json_view(value: Json) -> JsonView
    decreases value,
{
    match value {
        Json::Null => JsonView::Null,
        Json::Bool(b) => JsonView::Bool(b),
        Json::Number(n) => JsonView::Number(n@),
        Json::Text(s) => JsonView::Text(s@),
        Json::Array(items) => JsonView::Array(array_view(items@)),
        Json::Object(object) => JsonView::Object(entries_view(object.entries@)),
    }
}

/// The views of the items of an array.
pub open spec fn array_view(items: Seq<Json>) -> Seq<JsonView>
    decreases items,
{
    Seq::new(
        items.len(),
        |i: int|
            if 0 <= i < items.len() {
                json_view(items[i])
            } else {
                JsonView::Null
            },
    )
}

/// The fields that a list of entries gives, where the first entry of a key counts.
pub open spec fn entries_view(entries: Seq<(String, Json)>) -> Map<Seq<char>, JsonView>
    decreases entries,
{
    if entries.len() == 0 {
        Map::empty()
    } else {
        let rest = entries_view(entries.subrange(0, entries.len() - 1));
        let key = entries[entries.len() - 1].0@;
        if rest.contains_key(key) {
            rest
        } else {
            rest.insert(key, json_view(entries[entries.len() - 1].1))
        }
    }
}

impl View for Json {
    type V = JsonView;

    open spec fn view(&self) -> JsonView {
        json_view(*self)
    }
}

impl View for JsonObject {
    type V = Map<Seq<char>, JsonView>;

    open spec fn view(&self) -> Map<Seq<char>, JsonView> {
        entries_view(self.entries@)
    }
}

proof fn entries_view_domain(entries: Seq<(String, Json)>)
    ensures
        forall|k: Seq<char>|
            entries_view(entries).contains_key(k) <==> exists|i: int|
                0 <= i < entries.len() && #[trigger] entries[i].0@ == k,
    decreases entries.len(),
{
    if entries.len() > 0 {
        let rest = entries.subrange(0, entries.len() - 1);
        entries_view_domain(rest);
        assert forall|k: Seq<char>| entries_view(entries).contains_key(k) implies exists|i: int|
            0 <= i < entries.len() && #[trigger] entries[i].0@ == k by {
            if entries_view(rest).contains_key(k) {
                let i = choose|i: int| 0 <= i < rest.len() && #[trigger] rest[i].0@ == k;
                assert(entries[i].0@ == k);
            } else {
                assert(entries[entries.len() - 1].0@ == k);
            }
        }
        assert forall|k: Seq<char>|
            (exists|i: int| 0 <= i < entries.len() && #[trigger] entries[i].0@ == k) implies entries_view(
            entries,
        ).contains_key(k) by {
            let i = choose|i: int| 0 <= i < entries.len() && #[trigger] entries[i].0@ == k;
            if i < rest.len() {
                assert(rest[i].0@ == k);
                assert(entries_view(rest).contains_key(k));
            } else {
                assert(entries[entries.len() - 1].0@ == k);
            }
        }
    }
}

/// The first entry of a key gives the field's value.
proof fn entries_view_first(entries: Seq<(String, Json)>, at: int)
    requires
        0 <= at < entries.len(),
        forall|i: int| 0 <= i < at ==> entries[i].0@ != entries[at].0@,
    ensures
        entries_view(entries).contains_key(entries[at].0@),
        entries_view(entries)[entries[at].0@] == json_view(entries[at].1),
    decreases entries.len(),
{
    let rest = entries.subrange(0, entries.len() - 1);
    if at < rest.len() {
        assert(rest[at] == entries[at]);
        assert forall|i: int| 0 <= i < at implies rest[i].0@ != rest[at].0@ by {
            assert(rest[i] == entries[i]);
        }
        entries_view_first(rest, at);
    } else {
        entries_view_domain(rest);
        assert(!entries_view(rest).contains_key(entries[at].0@)) by {
            if entries_view(rest).contains_key(entries[at].0@) {
                let i = choose|i: int| 0 <= i < rest.len() && #[trigger] rest[i].0@ == entries[at].0@;
                assert(rest[i] == entries[i]);
            }
        }
    }
}

/// Replacing the value of a key's first entry replaces the field's value.
proof fn entries_view_update(entries: Seq<(String, Json)>, at: int, entry: (String, Json))
    requires
        0 <= at < entries.len(),
        forall|i: int| 0 <= i < at ==> entries[i].0@ != entries[at].0@,
        entry.0@ == entries[at].0@,
    ensures
        entries_view(entries.update(at, entry)) == entries_view(entries).insert(
            entry.0@,
            json_view(entry.1),
        ),
    decreases entries.len(),
{
    let after = entries.update(at, entry);
    let rest = entries.subrange(0, entries.len() - 1);
    let rest_after = after.subrange(0, entries.len() - 1);
    if at < rest.len() {
        assert(rest_after =~= rest.update(at, entry));
        assert forall|i: int| 0 <= i < at implies rest[i].0@ != rest[at].0@ by {
            assert(rest[i] == entries[i]);
        }
        entries_view_update(rest, at, entry);
        assert(after[entries.len() - 1] == entries[entries.len() - 1]);
        assert(entries_view(after) =~= entries_view(entries).insert(entry.0@, json_view(entry.1)));
    } else {
        assert(rest_after =~= rest);
        entries_view_domain(rest);
        assert(!entries_view(rest).contains_key(entries[at].0@)) by {
            if entries_view(rest).contains_key(entries[at].0@) {
                let i = choose|i: int| 0 <= i < rest.len() && #[trigger] rest[i].0@ == entries[at].0@;
                assert(rest[i] == entries[i]);
            }
        }
        assert(entries_view(after) =~= entries_view(entries).insert(entry.0@, json_view(entry.1)));
    }
}

impl JsonNumber {
    /// A number of the given value.
    pub fn from_u64(value: u64) -> (number: JsonNumber)
        ensures
            number@ == crate::text::decimal_text(value as nat),
    {
        JsonNumber { text: crate::text::decimal(value) }
    }

    /// A number of the given value.
    pub fn from_i64(value: i64) -> (number: JsonNumber)
        ensures
            number@ == integer_text(value as int),
    {
        if value >= 0 {
            JsonNumber { text: crate::text::decimal(value as u64) }
        } else {
            let magnitude: u64 = (0 - value as i128) as u64;
            JsonNumber { text: crate::text::concat("-", crate::text::decimal(magnitude).as_str()) }
        }
    }

    /// The same number.
    pub fn copy(&self) -> (number: JsonNumber)
        ensures
            number@ == self@,
    {
        JsonNumber { text: self.text.clone() }
    }

    /// The number in the one form that equal numbers share.
    pub fn settle(&self) -> (number: JsonNumber)
        ensures
            number@ == settled_number(self@),
    {
        if same_text(self.text.as_str(), "-0.0") {
            JsonNumber { text: "0.0".to_owned() }
        } else {
            self.copy()
        }
    }

    /// The number's text.
    pub fn as_str(&self) -> (text: &str)
        ensures
            text@ == self@,
    {
        self.text.as_str()
    }

    /// The number's value, where it is an unsigned 64-bit integer.
    pub fn as_u64(&self) -> (value: Option<u64>)
        ensures
            value == number_u64(self@),
    {
        let chars = crate::text::chars_of(self.text.as_str());
        let mut value: u64 = 0;
        let mut i: usize = 0;
        if chars.len() == 0 {
            return None;
        }
        while i < chars.len()
            invariant
                i <= chars@.len(),
                chars@ == self@,
                digits_value(chars@.take(i as int)) == Some(value as nat),
            decreases chars@.len() - i,
        {
            let n: u32 = chars[i] as u32;
            proof {
                assert(chars@.take(i + 1).drop_last() =~= chars@.take(i as int));
            }
            if n < 0x30 || n > 0x39 {
                proof {
                    digits_value_prefix(chars@, i + 1);
                }
                return None;
            }
            let d: u64 = (n - 0x30) as u64;
            if value > (u64::MAX - d) / 10 {
                proof {
                    assert(value * 10 + d > u64::MAX);
                    digits_value_prefix(chars@, i + 1);
                }
                return None;
            }
            value = value * 10 + d;
            i = i + 1;
        }
        proof {
            assert(chars@.take(chars@.len() as int) =~= chars@);
        }
        Some(value)
    }
}

/// A number in the one form that equal numbers share: both zeros of a float are one number.
pub open spec fn settled_number(text: Seq<char>) -> Seq<char> {
    if text == "-0.0"@ {
        "0.0"@
    } else {
        text
    }
}

/// A value with each number in the one form that equal numbers share.
pub open spec fn settled(value: JsonView) -> JsonView
    decreases value,
{
    match value {
        JsonView::Number(text) => JsonView::Number(settled_number(text)),
        JsonView::Array(items) => JsonView::Array(
            Seq::new(
                items.len(),
                |i: int|
                    if 0 <= i < items.len() {
                        settled(items[i])
                    } else {
                        JsonView::Null
                    },
            ),
        ),
        JsonView::Object(fields) => JsonView::Object(
            Map::new(
                |key: Seq<char>| fields.contains_key(key),
                |key: Seq<char>|
                    if fields.contains_key(key) {
                        settled(fields[key])
                    } else {
                        JsonView::Null
                    },
            ),
        ),
        other => other,
    }
}

/// Fields with each number in the one form that equal numbers share.
pub open spec fn settled_fields(fields: Map<Seq<char>, JsonView>) -> Map<Seq<char>, JsonView> {
    settled(JsonView::Object(fields))->Object_0
}

/// An integer in decimal.
pub open spec fn integer_text(value: int) -> Seq<char> {
    if value >= 0 {
        crate::text::decimal_text(value as nat)
    } else {
        "-"@ + crate::text::decimal_text((-value) as nat)
    }
}

/// The value of a text of decimal digits, and nothing where another character is in it.
pub open spec fn digits_value(text: Seq<char>) -> Option<nat>
    decreases text.len(),
{
    if text.len() == 0 {
        Some(0)
    } else {
        match digits_value(text.drop_last()) {
            Some(v) if 0x30 <= text.last() as u32 <= 0x39 => Some(
                v * 10 + (text.last() as u32 - 0x30) as nat,
            ),
            _ => None,
        }
    }
}

/// The value of a number's text as an unsigned 64-bit integer.
pub open spec fn number_u64(text: Seq<char>) -> Option<u64> {
    match digits_value(text) {
        Some(v) if text.len() > 0 && v <= u64::MAX => Some(v as u64),
        _ => None,
    }
}

proof fn digits_value_prefix(text: Seq<char>, n: int)
    requires
        0 <= n <= text.len(),
    ensures
        digits_value(text.take(n)) is None ==> digits_value(text) is None,
        digits_value(text.take(n)) is Some && digits_value(text) is Some ==> digits_value(
            text.take(n),
        )->0 <= digits_value(text)->0,
    decreases text.len() - n,
{
    if n < text.len() {
        assert(text.take(n + 1).drop_last() =~= text.take(n));
        digits_value_prefix(text, n + 1);
    } else {
        assert(text.take(n) =~= text);
    }
}

impl JsonObject {
    /// An object without fields.
    pub fn new() -> (object: JsonObject)
        ensures
            object@ == Map::<Seq<char>, JsonView>::empty(),
    {
        JsonObject { entries: Vec::new() }
    }

    fn position(&self, key: &str) -> (at: Option<usize>)
        ensures
            at is Some == self@.contains_key(key@),
            at matches Some(i) ==> {
                &&& i < self.entries@.len()
                &&& self.entries@[i as int].0@ == key@
                &&& forall|j: int| 0 <= j < i ==> (#[trigger] self.entries@[j]).0@ != key@
                &&& self@[key@] == self.entries@[i as int].1@
            },
    {
        proof {
            entries_view_domain(self.entries@);
        }
        let mut i: usize = 0;
        while i < self.entries.len()
            invariant
                i <= self.entries@.len(),
                forall|j: int| 0 <= j < i ==> (#[trigger] self.entries@[j]).0@ != key@,
            decreases self.entries@.len() - i,
        {
            if same_text(self.entries[i].0.as_str(), key) {
                proof {
                    entries_view_first(self.entries@, i as int);
                }
                return Some(i);
            }
            i = i + 1;
        }
        None
    }

    /// The value of a field.
    pub fn get(&self, key: &str) -> (value: Option<&Json>)
        ensures
            value is Some == self@.contains_key(key@),
            value matches Some(v) ==> v@ == self@[key@],
    {
        match self.position(key) {
            Some(i) => Some(&self.entries[i].1),
            None => None,
        }
    }

    /// Whether the object has the field.
    pub fn contains_key(&self, key: &str) -> (yes: bool)
        ensures
            yes == self@.contains_key(key@),
    {
        self.position(key).is_some()
    }

    /// Whether the object has no fields.
    pub fn is_empty(&self) -> (yes: bool)
        ensures
            yes == (self@ == Map::<Seq<char>, JsonView>::empty()),
    {
        proof {
            entries_view_domain(self.entries@);
            if self.entries@.len() > 0 {
                assert(self.entries@[0].0@ == self.entries@[0].0@);
                assert(self@.contains_key(self.entries@[0].0@));
            }
        }
        self.entries.len() == 0
    }

    /// Gives the field `key` the value `value`, whether or not it had one.
    pub fn set(&mut self, key: &str, value: Json)
        ensures
            final(self)@ == old(self)@.insert(key@, value@),
    {
        match self.position(key) {
            Some(i) => {
                let ghost before = self.entries@;
                let entry = (key.to_owned(), value);
                proof {
                    entries_view_update(before, i as int, entry);
                }
                self.entries.set(i, entry);
            },
            None => {
                let ghost before = self.entries@;
                self.entries.push((key.to_owned(), value));
                proof {
                    assert(self.entries@.subrange(0, self.entries@.len() - 1) =~= before);
                }
            },
        }
    }

    /// Takes the field `key` away, if it is there.
    pub fn remove(&mut self, key: &str)
        ensures
            final(self)@ == old(self)@.remove(key@),
    {
        let mut kept: Vec<(String, Json)> = Vec::new();
        let mut i: usize = 0;
        let ghost before = self.entries@;
        let n: usize = self.entries.len();
        proof {
            assert(entries_view(before.take(0)).remove(key@) =~= Map::empty());
        }
        while i < n
            invariant
                i <= n == before.len(),
                self.entries@ == before,
                entries_view(kept@) == entries_view(before.take(i as int)).remove(key@),
            decreases n - i,
        {
            proof {
                assert(before.take(i + 1).subrange(0, before.take(i + 1).len() - 1) =~= before.take(
                    i as int,
                ));
            }
            if !same_text(self.entries[i].0.as_str(), key) {
                let entry = (self.entries[i].0.clone(), self.entries[i].1.copy());
                let ghost kept_before = kept@;
                kept.push(entry);
                proof {
                    assert(kept@.subrange(0, kept@.len() - 1) =~= kept_before);
                    assert(entries_view(kept@) =~= entries_view(before.take(i + 1)).remove(key@));
                }
            } else {
                proof {
                    assert(entries_view(kept@) =~= entries_view(before.take(i + 1)).remove(key@));
                }
            }
            i = i + 1;
        }
        proof {
            assert(before.take(n as int) =~= before);
        }
        self.entries = kept;
    }

    /// An object with the same fields.
    pub fn copy(&self) -> (object: JsonObject)
        ensures
            object@ == self@,
        decreases self,
    {
        let mut entries: Vec<(String, Json)> = Vec::new();
        let mut i: usize = 0;
        while i < self.entries.len()
            invariant
                i <= self.entries@.len(),
                entries_view(entries@) == entries_view(self.entries@.take(i as int)),
            decreases self.entries@.len() - i,
        {
            let ghost before = entries@;
            let value = self.entries[i].1.copy();
            entries.push((self.entries[i].0.clone(), value));
            proof {
                assert(entries@.subrange(0, entries@.len() - 1) =~= before);
                let t = self.entries@.take(i + 1);
                assert(t.subrange(0, t.len() - 1) =~= self.entries@.take(i as int));
            }
            i = i + 1;
        }
        proof {
            assert(self.entries@.take(self.entries@.len() as int) =~= self.entries@);
        }
        JsonObject { entries }
    }

    /// The fields with each number in the one form that equal numbers share.
    pub fn settle(&self) -> (object: JsonObject)
        ensures
            object@ == settled_fields(self@),
        decreases self,
    {
        let mut entries: Vec<(String, Json)> = Vec::new();
        let mut i: usize = 0;
        proof {
            assert(self.entries@.take(0) =~= Seq::empty());
            assert(settled_fields(Map::empty()) =~= Map::empty());
        }
        while i < self.entries.len()
            invariant
                i <= self.entries@.len(),
                entries_view(entries@) == settled_fields(
                    entries_view(self.entries@.take(i as int)),
                ),
            decreases self.entries@.len() - i,
        {
            let ghost before = entries@;
            let value = self.entries[i].1.settle();
            entries.push((self.entries[i].0.clone(), value));
            proof {
                assert(entries@.subrange(0, entries@.len() - 1) =~= before);
                let t = self.entries@.take(i + 1);
                assert(t.subrange(0, t.len() - 1) =~= self.entries@.take(i as int));
                assert(entries_view(entries@) =~= settled_fields(entries_view(t)));
            }
            i = i + 1;
        }
        proof {
            assert(self.entries@.take(self.entries@.len() as int) =~= self.entries@);
        }
        JsonObject { entries }
    }

    /// Whether every field of this object is in `other` with the same value.
    fn within(&self, other: &JsonObject) -> (yes: bool)
        ensures
            yes == (forall|k: Seq<char>| #[trigger]
                self@.contains_key(k) ==> other@.contains_key(k) && other@[k] == self@[k]),
        decreases self, 0nat,
    {
        proof {
            entries_view_domain(self.entries@);
        }
        let mut i: usize = 0;
        while i < self.entries.len()
            invariant
                i <= self.entries@.len(),
                forall|j: int|
                    0 <= j < i ==> ({
                        let k = (#[trigger] self.entries@[j]).0@;
                        self@.contains_key(k) ==> other@.contains_key(k) && other@[k] == self@[k]
                    }),
            decreases self.entries@.len() - i,
        {
            let key: &str = self.entries[i].0.as_str();
            if let Some(first) = self.position(key) {
                match other.get(key) {
                    Some(v) => {
                        if !self.entries[first].1.same(v) {
                            return false;
                        }
                    },
                    None => {
                        return false;
                    },
                }
            }
            i = i + 1;
        }
        proof {
            assert forall|k: Seq<char>| #[trigger] self@.contains_key(k) implies other@.contains_key(k)
                && other@[k] == self@[k] by {
                let j = choose|j: int| 0 <= j < self.entries@.len() && #[trigger] self.entries@[j].0@ == k;
                assert(self.entries@[j].0@ == k);
            }
        }
        true
    }

    /// Whether two objects have the same fields with the same values.
    pub fn same(&self, other: &JsonObject) -> (yes: bool)
        ensures
            yes == (self@ == other@),
        decreases self, 1nat,
    {
        if !self.within(other) {
            return false;
        }
        let mut i: usize = 0;
        proof {
            entries_view_domain(other.entries@);
        }
        while i < other.entries.len()
            invariant
                i <= other.entries@.len(),
                forall|k: Seq<char>|
                    other@.contains_key(k) <==> exists|i: int|
                        0 <= i < other.entries@.len() && #[trigger] other.entries@[i].0@ == k,
                forall|j: int|
                    0 <= j < i ==> self@.contains_key((#[trigger] other.entries@[j]).0@),
            decreases other.entries@.len() - i,
        {
            if !self.contains_key(other.entries[i].0.as_str()) {
                proof {
                    assert(other@.contains_key(other.entries@[i as int].0@));
                }
                return false;
            }
            i = i + 1;
        }
        proof {
            assert forall|k: Seq<char>| #[trigger] other@.contains_key(k) implies self@.contains_key(k) by {
                let j = choose|j: int| 0 <= j < other.entries@.len() && #[trigger] other.entries@[j].0@ == k;
                assert(other.entries@[j].0@ == k);
            }
            assert(self@.dom() =~= other@.dom());
            assert(self@ =~= other@);
        }
        true
    }
}

impl Json {
    /// The same value.
    pub fn copy(&self) -> (value: Json)
        ensures
            value@ == self@,
        decreases self,
    {
        match self {
            Json::Null => Json::Null,
            Json::Bool(b) => Json::Bool(*b),
            Json::Number(n) => Json::Number(n.copy()),
            Json::Text(s) => Json::Text(s.clone()),
            Json::Array(items) => {
                let mut out: Vec<Json> = Vec::new();
                let mut i: usize = 0;
                while i < items.len()
                    invariant
                        i <= items@.len(),
                        *self == Json::Array(*items),
                        out@.len() == i,
                        forall|j: int| 0 <= j < i ==> json_view(#[trigger] out@[j]) == json_view(items@[j]),
                    decreases items@.len() - i,
                {
                    proof {
                        assert(decreases_to!(*self => self->Array_0@[i as int]));
                    }
                    let item = items[i].copy();
                    out.push(item);
                    i = i + 1;
                }
                proof {
                    assert(array_view(out@) =~= array_view(items@));
                }
                Json::Array(out)
            },
            Json::Object(object) => Json::Object(object.copy()),
        }
    }

    /// The value with each number in the one form that equal numbers share.
    pub fn settle(&self) -> (value: Json)
        ensures
            value@ == settled(self@),
        decreases self,
    {
        match self {
            Json::Null => Json::Null,
            Json::Bool(b) => Json::Bool(*b),
            Json::Number(n) => Json::Number(n.settle()),
            Json::Text(s) => Json::Text(s.clone()),
            Json::Array(items) => {
                let mut out: Vec<Json> = Vec::new();
                let mut i: usize = 0;
                while i < items.len()
                    invariant
                        i <= items@.len(),
                        *self == Json::Array(*items),
                        out@.len() == i,
                        forall|j: int|
                            0 <= j < i ==> json_view(#[trigger] out@[j]) == settled(
                                json_view(items@[j]),
                            ),
                    decreases items@.len() - i,
                {
                    proof {
                        assert(decreases_to!(*self => self->Array_0@[i as int]));
                    }
                    let item = items[i].settle();
                    out.push(item);
                    i = i + 1;
                }
                proof {
                    let views = array_view(items@);
                    assert(array_view(out@) =~= settled(JsonView::Array(views))->Array_0);
                }
                Json::Array(out)
            },
            Json::Object(object) => Json::Object(object.settle()),
        }
    }

    /// Whether two values are the same.
    pub fn same(&self, other: &Json) -> (yes: bool)
        ensures
            yes == (self@ == other@),
        decreases self, 0nat,
    {
        match (self, other) {
            (Json::Null, Json::Null) => true,
            (Json::Bool(a), Json::Bool(b)) => *a == *b,
            (Json::Number(a), Json::Number(b)) => same_text(a.as_str(), b.as_str()),
            (Json::Text(a), Json::Text(b)) => same_text(a.as_str(), b.as_str()),
            (Json::Array(a), Json::Array(b)) => {
                if a.len() != b.len() {
                    proof {
                        assert(array_view(a@).len() != array_view(b@).len());
                    }
                    return false;
                }
                let mut i: usize = 0;
                while i < a.len()
                    invariant
                        i <= a@.len() == b@.len(),
                        *self == Json::Array(*a),
                        *other == Json::Array(*b),
                        forall|j: int| 0 <= j < i ==> json_view(#[trigger] a@[j]) == json_view(b@[j]),
                    decreases a@.len() - i,
                {
                    proof {
                        assert(decreases_to!(*self => self->Array_0@[i as int]));
                    }
                    if !a[i].same(&b[i]) {
                        proof {
                            assert(array_view(a@)[i as int] != array_view(b@)[i as int]);
                        }
                        return false;
                    }
                    i = i + 1;
                }
                proof {
                    assert(array_view(a@) =~= array_view(b@));
                }
                true
            },
            (Json::Object(a), Json::Object(b)) => a.same(b),
            _ => false,
        }
    }

    /// The text of a string value.
    pub fn as_str(&self) -> (text: Option<&str>)
        ensures
            text is Some == (self@ is Text),
            text matches Some(t) ==> self@ == JsonView::Text(t@),
    {
        match self {
            Json::Text(s) => Some(s.as_str()),
            _ => None,
        }
    }

    /// The fields of an object value.
    pub fn as_object(&self) -> (object: Option<&JsonObject>)
        ensures
            object is Some == (self@ is Object),
            object matches Some(o) ==> self@ == JsonView::Object(o@),
    {
        match self {
            Json::Object(o) => Some(o),
            _ => None,
        }
    }

    /// Whether the value is null.
    pub fn is_null(&self) -> (yes: bool)
        ensures
            yes == (self@ is Null),
    {
        match self {
            Json::Null => true,
            _ => false,
        }
    }
}

/// A field of a value, where the value is an object that has it.
pub open spec fn field(value: JsonView, key: Seq<char>) -> Option<JsonView> {
    match value {
        JsonView::Object(fields) => object_field(fields, key),
        _ => None,
    }
}

/// A field of an object, where it has it.
pub open spec fn object_field(
    fields: Map<Seq<char>, JsonView>,
    key: Seq<char>,
) -> Option<JsonView> {
    if fields.contains_key(key) {
        Some(fields[key])
    } else {
        None
    }
}

/// The text that a value may be.
pub open spec fn text_of(value: Option<JsonView>) -> Option<Seq<char>> {
    match value {
        Some(JsonView::Text(t)) => Some(t),
        _ => None,
    }
}

/// The text of an object's field, where it has the field and the field is text.
pub open spec fn text_field(fields: Map<Seq<char>, JsonView>, key: Seq<char>) -> Option<Seq<char>> {
    text_of(object_field(fields, key))
}

/// The view of a borrowed text that may be absent.
pub open spec fn str_view(text: Option<&str>) -> Option<Seq<char>> {
    match text {
        Some(t) => Some(t@),
        None => None,
    }
}

/// The view of a borrowed value that may be absent.
pub open spec fn ref_view(value: Option<&Json>) -> Option<JsonView> {
    match value {
        Some(v) => Some(v@),
        None => None,
    }
}

impl JsonObject {
    /// The text of a field, where the object has the field and the field is text.
    pub fn get_str(&self, key: &str) -> (text: Option<&str>)
        ensures
            str_view(text) == text_field(self@, key@),
    {
        match self.get(key) {
            Some(v) => v.as_str(),
            None => None,
        }
    }

    /// Whether a field is there and is the given text.
    pub fn field_is(&self, key: &str, value: &str) -> (yes: bool)
        ensures
            yes == (text_field(self@, key@) == Some(value@)),
    {
        match self.get_str(key) {
            Some(t) => same_text(t, value),
            None => false,
        }
    }

    /// Gives the field `key` a text.
    pub fn set_str(&mut self, key: &str, value: &str)
        ensures
            final(self)@ == old(self)@.insert(key@, JsonView::Text(value@)),
    {
        self.set(key, Json::text(value));
    }
}

impl Json {
    /// A text value.
    pub fn text(value: &str) -> (json: Json)
        ensures
            json@ == JsonView::Text(value@),
    {
        Json::Text(value.to_owned())
    }

    /// A field of this value, where it is an object that has it.
    pub fn get(&self, key: &str) -> (value: Option<&Json>)
        ensures
            ref_view(value) == field(self@, key@),
    {
        match self {
            Json::Object(object) => object.get(key),
            _ => None,
        }
    }

    /// The text of a field, where this value is an object that has it as text.
    pub fn get_str(&self, key: &str) -> (text: Option<&str>)
        ensures
            str_view(text) == text_of(field(self@, key@)),
    {
        match self.get(key) {
            Some(v) => v.as_str(),
            None => None,
        }
    }

    /// Whether a field is there and is the given text.
    pub fn field_is(&self, key: &str, value: &str) -> (yes: bool)
        ensures
            yes == (text_of(field(self@, key@)) == Some(value@)),
    {
        match self.get_str(key) {
            Some(t) => same_text(t, value),
            None => false,
        }
    }
}

/// `serde_json`'s own tree of a JSON text.
#[verifier::external_type_specification]
#[verifier::external_body]
pub struct ExValue(serde_json::Value);

/// What a `serde_json::Value` holds: the same tree as a [`JsonView`], each
/// number as the text that it prints.
pub uninterp spec fn value_contents(value: serde_json::Value) -> JsonView;

/// What `serde_json::from_str::<Value>` reads from a text, or what its error
/// says of a text that is not one JSON value.
pub uninterp spec fn read_json(text: Seq<char>) -> Result<JsonView, Seq<char>>;

/// The JSON value that a text is, where it is one.
pub open spec fn parsed_json(text: Seq<char>) -> Option<JsonView> {
    match read_json(text) {
        Ok(value) => Some(value),
        Err(_) => None,
    }
}

/// The view of a value that was read, or of what was said where none was.
pub open spec fn read_view(value: Result<Json, String>) -> Result<JsonView, Seq<char>> {
    match value {
        Ok(value) => Ok(value@),
        Err(reason) => Err(reason@),
    }
}

/// The compact text that `serde_json` prints for a value. Fields are printed
/// in the order of their keys, so the text depends on the view alone.
pub uninterp spec fn json_text(value: JsonView) -> Seq<char>;

/// Calls `serde_json::from_str::<Value>`: the tree read from `text`, or the text
/// of the error where `text` is not one JSON value.
#[verifier::external_body]
fn parse_value(text: &str) -> (out: Result<serde_json::Value, String>)
    ensures
        out is Ok == (read_json(text@) is Ok),
        out matches Ok(value) ==> read_json(text@)->Ok_0 == value_contents(value),
        out matches Err(reason) ==> read_json(text@)->Err_0 == reason@,
{
    serde_json::from_str::<serde_json::Value>(text).map_err(|error| error.to_string())
}

/// Whether no more than `depth` arrays and objects of a value lie one in the other.
pub open spec fn nested_within(value: JsonView, depth: nat) -> bool
    decreases depth,
{
    match value {
        JsonView::Array(items) => depth > 0 && forall|i: int|
            0 <= i < items.len() ==> nested_within(#[trigger] items[i], (depth - 1) as nat),
        JsonView::Object(fields) => depth > 0 && forall|key: Seq<char>| #[trigger]
            fields.contains_key(key) ==> nested_within(fields[key], (depth - 1) as nat),
        _ => true,
    }
}

/// Whether an object has a key, at most `depth` arrays and objects down in a value.
pub open spec fn holds_key(value: JsonView, key: Seq<char>, depth: nat) -> bool
    decreases depth,
{
    match value {
        JsonView::Array(items) => depth > 0 && exists|i: int|
            0 <= i < items.len() && holds_key(#[trigger] items[i], key, (depth - 1) as nat),
        JsonView::Object(fields) => depth > 0 && (fields.contains_key(key) || exists|k: Seq<char>|
            #[trigger] fields.contains_key(k) && holds_key(fields[k], key, (depth - 1) as nat)),
        _ => false,
    }
}

/// Whether a value is one that `serde_json` reads back from the text that it prints: it is
/// not nested deeper than `from_str` follows, and no object in it has the key by which
/// `serde_json` tells raw text from objects.
pub open spec fn reads_back(value: JsonView) -> bool {
    nested_within(value, 127) && !holds_key(value, "$serde_json::private::RawValue"@, 127)
}

/// Calls `Display` of `serde_json::Value`: the compact JSON text.
/// `serde_json::from_str` reads the same value back from it, unless the value
/// is nested deeper than `from_str` follows or has an object with the key that
/// `serde_json` keeps for raw text.
#[verifier::external_body]
fn value_text(value: &serde_json::Value) -> (out: String)
    ensures
        out@ == json_text(value_contents(*value)),
        reads_back(value_contents(*value)) ==> parsed_json(out@) == Some(value_contents(*value)),
{
    value.to_string()
}

/// Takes a `serde_json::Value` apart into a [`Json`] with the same contents.
#[verifier::external_body]
fn from_value(value: serde_json::Value) -> (out: Json)
    ensures
        out@ == value_contents(value),
{
    match value {
        serde_json::Value::Null => Json::Null,
        serde_json::Value::Bool(b) => Json::Bool(b),
        serde_json::Value::Number(n) => Json::Number(JsonNumber { text: n.to_string() }),
        serde_json::Value::String(s) => Json::Text(s),
        serde_json::Value::Array(items) => Json::Array(items.into_iter().map(from_value).collect()),
        serde_json::Value::Object(fields) => {
            let entries = fields.into_iter().map(|(k, v)| (k, from_value(v))).collect();
            Json::Object(JsonObject { entries })
        },
    }
}

/// Builds the `serde_json::Value` with the contents of a [`Json`]. The entries
/// go in from the last to the first, so that the first entry of a key counts.
#[verifier::external_body]
fn to_value(value: &Json) -> (out: serde_json::Value)
    ensures
        value_contents(out) == value@,
{
    match value {
        Json::Null => serde_json::Value::Null,
        Json::Bool(b) => serde_json::Value::Bool(*b),
        Json::Number(n) => serde_json::from_str(&n.text).expect("a number's text is a JSON number"),
        Json::Text(s) => serde_json::Value::String(s.clone()),
        Json::Array(items) => serde_json::Value::Array(items.iter().map(to_value).collect()),
        Json::Object(object) => serde_json::Value::Object(
            object.entries.iter().rev().map(|(k, v)| (k.clone(), to_value(v))).collect(),
        ),
    }
}

/// The number that a number becomes where it is read as a float: what
/// `serde_json` prints of `Value::as_f64`.
pub uninterp spec fn float_value(value: JsonView) -> Option<JsonView>;

/// Calls `Value::as_f64`, and `Value::from` for what it gives: a number as a
/// float, and nothing for any other value. A number stays a number.
#[verifier::external_body]
fn value_as_float(value: &serde_json::Value) -> (out: Option<serde_json::Value>)
    ensures
        out is Some == (float_value(value_contents(*value)) is Some),
        out matches Some(float) ==> float_value(value_contents(*value)) == Some(
            value_contents(float),
        ),
        out is Some == (value_contents(*value) is Number),
        out matches Some(float) ==> value_contents(float) is Number,
{
    value.as_f64().map(serde_json::Value::from)
}

impl Json {
    /// The value as a float, where it is a number.
    pub fn as_float(&self) -> (float: Option<JsonNumber>)
        ensures
            float is Some == (self@ is Number),
            float matches Some(n) ==> float_value(self@) == Some(JsonView::Number(n@)),
    {
        let value = to_value(self);
        match value_as_float(&value) {
            Some(float) => match from_value(float) {
                Json::Number(n) => Some(n),
                _ => None,
            },
            None => None,
        }
    }

    /// The JSON value that `text` is, where it is one.
    pub fn parse(text: &str) -> (value: Option<Json>)
        ensures
            value is Some == (parsed_json(text@) is Some),
            value matches Some(v) ==> parsed_json(text@) == Some(v@),
    {
        match parse_value(text) {
            Ok(value) => Some(from_value(value)),
            Err(_) => None,
        }
    }

    /// The JSON value that `text` is, or what is wrong with it.
    pub fn read(text: &str) -> (value: Result<Json, String>)
        ensures
            read_view(value) == read_json(text@),
    {
        match parse_value(text) {
            Ok(value) => Ok(from_value(value)),
            Err(reason) => Err(reason),
        }
    }

    /// The value as compact JSON text, from which the value is read back unless it is
    /// nested too deep or has an object with a reserved key.
    pub fn to_text(&self) -> (text: String)
        ensures
            text@ == json_text(self@),
            reads_back(self@) ==> parsed_json(text@) == Some(self@),
    {
        let value = to_value(self);
        value_text(&value)
    }
}

impl Clone for Json {
    fn clone(&self) -> (value: Json)
        ensures
            value@ == self@,
    {
        self.copy()
    }
}

impl Clone for JsonObject {
    fn clone(&self) -> (object: JsonObject)
        ensures
            object@ == self@,
    {
        self.copy()
    }
}

impl PartialEq for Json {
    fn eq(&self, other: &Json) -> (yes: bool) {
        self.same(other)
    }
}

impl vstd::std_specs::cmp::PartialEqSpecImpl for Json {
    open spec fn obeys_eq_spec() -> bool {
        true
    }

    open spec fn eq_spec(&self, other: &Json) -> bool {
        self@ == other@
    }
}

impl PartialEq for JsonObject {
    fn eq(&self, other: &JsonObject) -> (yes: bool) {
        self.same(other)
    }
}

impl vstd::std_specs::cmp::PartialEqSpecImpl for JsonObject {
    open spec fn obeys_eq_spec() -> bool {
        true
    }

    open spec fn eq_spec(&self, other: &JsonObject) -> bool {
        self@ == other@
    }
}

} // verus!
