//! The JSON shapes of declarations, items, requests and responses.
use vstd::prelude::*;

use crate::data::Data;
#[allow(unused_imports)]
use crate::json::{Json, JsonNumber, JsonObject, JsonView};
use crate::text::{concat3, same_text};

verus! {

/// A type that is read from JSON.
pub trait FromJson: View + Sized {
    /// What a JSON value stands for, where it has the type's shape.
    spec fn of_json(value: JsonView) -> Option<Self::V>;

    fn from_json(value: &Json) -> (out: Option<Self>)
        ensures
            crate::data::opt_view(out) == Self::of_json(value@),
    ;
}

/// A type that is written as JSON.
pub trait ToJson: View + Sized {
    /// The JSON value that stands for a value of the type.
    spec fn json_of(value: Self::V) -> JsonView;

    fn to_json(&self) -> (out: Json)
        ensures
            out@ == Self::json_of(self@),
    ;
}

/// What was read of a text or a value, or why it could not be read.
pub open spec fn reading<T: View>(read: Result<T, String>) -> Result<T::V, Seq<char>> {
    match read {
        Ok(value) => Ok(value@),
        Err(reason) => Err(reason@),
    }
}

/// The fields whose values stand in a list, in the order of their names.
pub open spec fn by_place(names: Seq<Seq<char>>, items: Seq<JsonView>) -> Map<Seq<char>, JsonView>
    decreases items.len(),
{
    if items.len() == 0 {
        Map::empty()
    } else {
        by_place(names, items.drop_last()).insert(names[items.len() - 1], items.last())
    }
}

/// The fields of a list that stands for a record, where at least `least` of them are
/// there and none is left over.
pub open spec fn in_place(
    names: Seq<Seq<char>>,
    least: nat,
    items: Seq<JsonView>,
) -> Option<Map<Seq<char>, JsonView>> {
    if least <= items.len() <= names.len() {
        Some(by_place(names, items))
    } else {
        None
    }
}

/// Reads the fields of a record out of a list, from the place `from` on.
pub fn read_in_place(
    names: &Vec<&'static str>,
    least: usize,
    items: &Vec<Json>,
    from: usize,
) -> (out: Option<JsonObject>)
    requires
        from <= items@.len(),
    ensures
        crate::data::opt_view(out) == in_place(
            crate::data::views(names@),
            least as nat,
            crate::json::array_view(items@).skip(from as int),
        ),
{
    let ghost all = crate::json::array_view(items@).skip(from as int);
    let ghost keys = crate::data::views(names@);
    let count: usize = items.len() - from;
    if count < least || count > names.len() {
        return None;
    }
    let mut fields = JsonObject::new();
    let mut i: usize = 0;
    proof {
        assert(all.take(0) =~= Seq::empty());
    }
    while i < count
        invariant
            i <= count,
            from + count == items@.len(),
            items@.len() <= usize::MAX,
            count <= names@.len(),
            all == crate::json::array_view(items@).skip(from as int),
            keys == crate::data::views(names@),
            fields@ == by_place(keys, all.take(i as int)),
        decreases count - i,
    {
        proof {
            assert(all[i as int] == items@[from + i]@);
            assert(keys[i as int] == names@[i as int]@);
            assert(all.take(i + 1).drop_last() =~= all.take(i as int));
        }
        fields.set(names[i], items[from + i].copy());
        i = i + 1;
    }
    proof {
        assert(all.take(count as int) =~= all);
    }
    Some(fields)
}

/// The fields of a record: those of an object, or those that a list gives in the order of
/// their names.
pub open spec fn record_fields(
    value: JsonView,
    names: Seq<Seq<char>>,
    least: nat,
) -> Option<Map<Seq<char>, JsonView>> {
    match value {
        JsonView::Object(fields) => Some(fields),
        JsonView::Array(items) => in_place(names, least, items),
        _ => None,
    }
}

/// Reads the fields of a record.
pub fn read_record_fields(value: &Json, names: &Vec<&'static str>, least: usize) -> (out: Option<
    JsonObject,
>)
    ensures
        crate::data::opt_view(out) == record_fields(
            value@,
            crate::data::views(names@),
            least as nat,
        ),
{
    match value {
        Json::Object(fields) => Some(fields.copy()),
        Json::Array(items) => {
            proof {
                assert(crate::json::array_view(items@).skip(0) =~= crate::json::array_view(items@));
            }
            read_in_place(names, least, items, 0)
        },
        _ => None,
    }
}

/// What the first `n` items stand for, where each has the type's shape.
pub open spec fn list_of<T: FromJson>(items: Seq<JsonView>, n: int) -> Option<Seq<T::V>>
    decreases n,
{
    if n <= 0 {
        Some(Seq::empty())
    } else {
        match (list_of::<T>(items, n - 1), T::of_json(items[n - 1])) {
            (Some(rest), Some(item)) => Some(rest.push(item)),
            _ => None,
        }
    }
}

proof fn list_of_stops<T: FromJson>(items: Seq<JsonView>, n: int, m: int)
    requires
        n <= m,
        list_of::<T>(items, n) is None,
    ensures
        list_of::<T>(items, m) is None,
    decreases m - n,
{
    if n < m {
        list_of_stops::<T>(items, n, m - 1);
    }
}

/// Reads a list in which every item must have the type's shape.
pub fn read_list<T: FromJson>(items: &Vec<Json>) -> (out: Option<Vec<T>>)
    ensures
        crate::data::opt_views(out) == list_of::<T>(
            crate::json::array_view(items@),
            items@.len() as int,
        ),
{
    let ghost all = crate::json::array_view(items@);
    let mut out: Vec<T> = Vec::new();
    let mut i: usize = 0;
    proof {
        assert(crate::data::views(out@) =~= Seq::empty());
    }
    while i < items.len()
        invariant
            i <= items@.len(),
            all == crate::json::array_view(items@),
            list_of::<T>(all, i as int) == Some(crate::data::views(out@)),
        decreases items@.len() - i,
    {
        match T::from_json(&items[i]) {
            Some(item) => {
                proof {
                    crate::data::views_push(out@, item);
                }
                out.push(item);
            },
            None => {
                proof {
                    list_of_stops::<T>(all, i + 1, items@.len() as int);
                }
                return None;
            },
        }
        i = i + 1;
    }
    Some(out)
}

/// What those of the first `n` items stand for that have the type's shape.
pub open spec fn readable_of<T: FromJson>(items: Seq<JsonView>, n: int) -> Seq<T::V>
    decreases n,
{
    if n <= 0 {
        Seq::empty()
    } else {
        match T::of_json(items[n - 1]) {
            Some(item) => readable_of::<T>(items, n - 1).push(item),
            None => readable_of::<T>(items, n - 1),
        }
    }
}

/// Reads those items of a list that have the type's shape.
pub fn read_readable<T: FromJson>(items: &Vec<Json>) -> (out: Vec<T>)
    ensures
        crate::data::views(out@) == readable_of::<T>(
            crate::json::array_view(items@),
            items@.len() as int,
        ),
{
    let ghost all = crate::json::array_view(items@);
    let mut out: Vec<T> = Vec::new();
    let mut i: usize = 0;
    proof {
        assert(crate::data::views(out@) =~= Seq::empty());
    }
    while i < items.len()
        invariant
            i <= items@.len(),
            all == crate::json::array_view(items@),
            crate::data::views(out@) == readable_of::<T>(all, i as int),
        decreases items@.len() - i,
    {
        if let Some(item) = T::from_json(&items[i]) {
            proof {
                crate::data::views_push(out@, item);
            }
            out.push(item);
        }
        i = i + 1;
    }
    out
}

/// The JSON values of a list.
pub open spec fn list_json<T: ToJson>(items: Seq<T::V>) -> Seq<JsonView> {
    items.map_values(|item: T::V| T::json_of(item))
}

/// Writes a list.
pub fn write_list<T: ToJson>(items: &Vec<T>) -> (out: Json)
    ensures
        out@ == JsonView::Array(list_json::<T>(crate::data::views(items@))),
{
    let mut out: Vec<Json> = Vec::new();
    let mut i: usize = 0;
    while i < items.len()
        invariant
            i <= items@.len(),
            out@.len() == i,
            forall|j: int| 0 <= j < i ==> (#[trigger] out@[j])@ == T::json_of(items@[j]@),
        decreases items@.len() - i,
    {
        let item = items[i].to_json();
        out.push(item);
        i = i + 1;
    }
    proof {
        assert(crate::json::array_view(out@) =~= list_json::<T>(crate::data::views(items@)));
    }
    Json::Array(out)
}

impl FromJson for String {
    open spec fn of_json(value: JsonView) -> Option<Seq<char>> {
        crate::json::text_of(Some(value))
    }

    fn from_json(value: &Json) -> (out: Option<String>) {
        match value {
            Json::Text(t) => Some(t.clone()),
            _ => None,
        }
    }
}

impl ToJson for String {
    open spec fn json_of(value: Seq<char>) -> JsonView {
        JsonView::Text(value)
    }

    fn to_json(&self) -> (out: Json) {
        Json::Text(self.clone())
    }
}

/// A text that may be absent or null, and nothing where the field is no text.
pub open spec fn opt_text(
    fields: Map<Seq<char>, JsonView>,
    key: Seq<char>,
) -> Option<Option<Seq<char>>> {
    match crate::custom::non_null(crate::json::object_field(fields, key)) {
        None => Some(None),
        Some(JsonView::Text(t)) => Some(Some(t)),
        _ => None,
    }
}

/// The view of a text that may be absent in two ways.
pub open spec fn opt_opt<T: View>(o: Option<Option<T>>) -> Option<Option<T::V>> {
    match o {
        Some(o) => Some(crate::data::opt_view(o)),
        None => None,
    }
}

/// Reads a text that may be absent or null.
pub fn read_opt_text(fields: &JsonObject, key: &str) -> (out: Option<Option<String>>)
    ensures
        opt_opt(out) == opt_text(fields@, key@),
{
    match fields.get(key) {
        None => Some(None),
        Some(Json::Null) => Some(None),
        Some(Json::Text(t)) => Some(Some(t.clone())),
        Some(_) => None,
    }
}

/// A flag that may be absent or null, and nothing where the field is no flag.
pub open spec fn opt_bool(
    fields: Map<Seq<char>, JsonView>,
    key: Seq<char>,
) -> Option<Option<bool>> {
    match crate::custom::non_null(crate::json::object_field(fields, key)) {
        None => Some(None),
        Some(JsonView::Bool(b)) => Some(Some(b)),
        _ => None,
    }
}

/// Reads a flag that may be absent or null.
pub fn read_opt_bool(fields: &JsonObject, key: &str) -> (out: Option<Option<bool>>)
    ensures
        out == opt_bool(fields@, key@),
{
    match fields.get(key) {
        None => Some(None),
        Some(Json::Null) => Some(None),
        Some(Json::Bool(b)) => Some(Some(*b)),
        Some(_) => None,
    }
}

/// An unsigned integer that may be absent or null, and nothing where the field
/// is none.
pub open spec fn opt_u64(fields: Map<Seq<char>, JsonView>, key: Seq<char>) -> Option<Option<u64>> {
    match crate::custom::non_null(crate::json::object_field(fields, key)) {
        None => Some(None),
        Some(JsonView::Number(n)) => match crate::json::number_u64(n) {
            Some(v) => Some(Some(v)),
            None => None,
        },
        _ => None,
    }
}

/// Reads an unsigned integer that may be absent or null.
pub fn read_opt_u64(fields: &JsonObject, key: &str) -> (out: Option<Option<u64>>)
    ensures
        out == opt_u64(fields@, key@),
{
    match fields.get(key) {
        None => Some(None),
        Some(Json::Null) => Some(None),
        Some(Json::Number(n)) => match n.as_u64() {
            Some(v) => Some(Some(v)),
            None => None,
        },
        Some(_) => None,
    }
}

/// The number of a JSON value as a float, given what it is as one.
pub open spec fn float_text(value: JsonView, float: Option<JsonView>) -> Option<Seq<char>> {
    match (value, float) {
        (JsonView::Number(_), Some(JsonView::Number(n))) => Some(n),
        _ => None,
    }
}

/// A float that may be absent or null, and nothing where the field is no number.
pub open spec fn opt_float(
    fields: Map<Seq<char>, JsonView>,
    key: Seq<char>,
) -> Option<Option<Seq<char>>> {
    match crate::custom::non_null(crate::json::object_field(fields, key)) {
        None => Some(None),
        Some(value) => match float_text(value, crate::json::float_value(value)) {
            Some(n) => Some(Some(n)),
            None => None,
        },
    }
}

/// Reads a float that may be absent or null. An integer becomes one too.
pub fn read_opt_float(fields: &JsonObject, key: &str) -> (out: Option<Option<JsonNumber>>)
    ensures
        opt_opt(out) == opt_float(fields@, key@),
{
    match fields.get(key) {
        None => Some(None),
        Some(Json::Null) => Some(None),
        Some(value) => match value.as_float() {
            Some(n) => Some(Some(n)),
            None => None,
        },
    }
}

/// A list that may be absent or null, and nothing where the field is no list of
/// the type.
pub open spec fn opt_list<T: FromJson>(fields: Map<Seq<char>, JsonView>, key: Seq<char>) -> Option<
    Option<Seq<T::V>>,
> {
    match crate::custom::non_null(crate::json::object_field(fields, key)) {
        None => Some(None),
        Some(JsonView::Array(items)) => match list_of::<T>(items, items.len() as int) {
            Some(list) => Some(Some(list)),
            None => None,
        },
        _ => None,
    }
}

/// The view of a list that may be absent in two ways.
pub open spec fn opt_opt_list<T: View>(o: Option<Option<Vec<T>>>) -> Option<Option<Seq<T::V>>> {
    match o {
        Some(o) => Some(crate::data::opt_views(o)),
        None => None,
    }
}

/// Reads a list that may be absent or null.
pub fn read_opt_list<T: FromJson>(fields: &JsonObject, key: &str) -> (out: Option<Option<Vec<T>>>)
    ensures
        opt_opt_list(out) == opt_list::<T>(fields@, key@),
{
    match fields.get(key) {
        None => Some(None),
        Some(Json::Null) => Some(None),
        Some(Json::Array(items)) => match read_list::<T>(items) {
            Some(list) => Some(Some(list)),
            None => None,
        },
        Some(_) => None,
    }
}

/// A list that counts as empty where it is absent or null.
pub open spec fn list_or_empty<T: FromJson>(
    fields: Map<Seq<char>, JsonView>,
    key: Seq<char>,
) -> Option<
    Seq<T::V>,
> {
    match opt_list::<T>(fields, key) {
        Some(Some(list)) => Some(list),
        Some(None) => Some(Seq::empty()),
        None => None,
    }
}

/// Reads a list that counts as empty where it is absent or null.
pub fn read_list_or_empty<T: FromJson>(fields: &JsonObject, key: &str) -> (out: Option<Vec<T>>)
    ensures
        crate::data::opt_views(out) == list_or_empty::<T>(fields@, key@),
{
    match read_opt_list::<T>(fields, key) {
        Some(Some(list)) => Some(list),
        Some(None) => {
            let none: Vec<T> = Vec::new();
            proof {
                assert(crate::data::views(none@) =~= Seq::empty());
            }
            Some(none)
        },
        None => None,
    }
}

/// The values of a list that counts as empty where it is absent or null.
pub open spec fn values_or_empty(
    fields: Map<Seq<char>, JsonView>,
    key: Seq<char>,
) -> Option<Seq<JsonView>> {
    match crate::custom::non_null(crate::json::object_field(fields, key)) {
        None => Some(Seq::empty()),
        Some(JsonView::Array(items)) => Some(items),
        _ => None,
    }
}

/// Reads the values of a list that counts as empty where it is absent or null.
pub fn read_values_or_empty(fields: &JsonObject, key: &str) -> (out: Option<Vec<Json>>)
    ensures
        crate::data::opt_views(out) == values_or_empty(fields@, key@),
{
    let none: Vec<Json> = Vec::new();
    proof {
        assert(crate::data::views(none@) =~= Seq::empty());
    }
    match fields.get(key) {
        None => Some(none),
        Some(Json::Null) => Some(none),
        Some(Json::Array(items)) => {
            proof {
                assert(crate::data::views(items@) =~= crate::json::array_view(items@));
            }
            Some(crate::data::copy_vec(items))
        },
        Some(_) => None,
    }
}

/// The fields of an object that counts as empty where it is absent or null.
pub open spec fn object_or_empty(fields: Map<Seq<char>, JsonView>, key: Seq<char>) -> Option<
    Map<Seq<char>, JsonView>,
> {
    match crate::custom::non_null(crate::json::object_field(fields, key)) {
        None => Some(Map::empty()),
        Some(JsonView::Object(o)) => Some(o),
        _ => None,
    }
}

/// Reads the fields of an object that counts as empty where it is absent or null.
pub fn read_object_or_empty(fields: &JsonObject, key: &str) -> (out: Option<JsonObject>)
    ensures
        crate::data::opt_view(out) == object_or_empty(fields@, key@),
{
    match fields.get(key) {
        None => Some(JsonObject::new()),
        Some(Json::Null) => Some(JsonObject::new()),
        Some(Json::Object(o)) => Some(o.copy()),
        Some(_) => None,
    }
}

/// A text, or the given one where the field is absent or no text.
pub open spec fn text_or(
    fields: Map<Seq<char>, JsonView>,
    key: Seq<char>,
    default: Seq<char>,
) -> Seq<char> {
    match crate::json::text_field(fields, key) {
        Some(t) => t,
        None => default,
    }
}

/// Reads a text, or gives the default where the field is absent or no text.
pub fn read_text_or(fields: &JsonObject, key: &str, default: &str) -> (out: String)
    ensures
        out@ == text_or(fields@, key@, default@),
{
    match fields.get_str(key) {
        Some(t) => t.to_owned(),
        None => default.to_owned(),
    }
}

/// A text that must be there and not empty.
pub open spec fn non_empty_text(
    fields: Map<Seq<char>, JsonView>,
    key: Seq<char>,
) -> Option<Seq<char>> {
    match crate::json::text_field(fields, key) {
        Some(t) if t.len() > 0 => Some(t),
        _ => None,
    }
}

/// Reads a text that must be there and not empty.
pub fn read_non_empty_text(fields: &JsonObject, key: &str) -> (out: Option<String>)
    ensures
        crate::data::opt_view(out) == non_empty_text(fields@, key@),
{
    match fields.get_str(key) {
        Some(t) => if t.is_empty() {
            None
        } else {
            Some(t.to_owned())
        },
        None => None,
    }
}

/// The fields with one text more, where there is a text.
pub open spec fn with_text(
    fields: Map<Seq<char>, JsonView>,
    key: Seq<char>,
    text: Option<Seq<char>>,
) -> Map<Seq<char>, JsonView> {
    match text {
        Some(t) => fields.insert(key, JsonView::Text(t)),
        None => fields,
    }
}

/// Gives a field a text, where there is a text.
pub fn set_text(fields: &mut JsonObject, key: &str, text: &Option<String>)
    ensures
        final(fields)@ == with_text(old(fields)@, key@, crate::data::opt_view(*text)),
{
    if let Some(t) = text {
        fields.set_str(key, t.as_str());
    }
}

/// The fields with one value more, where there is a value.
pub open spec fn with_json(
    fields: Map<Seq<char>, JsonView>,
    key: Seq<char>,
    value: Option<JsonView>,
) -> Map<Seq<char>, JsonView> {
    match value {
        Some(v) => fields.insert(key, v),
        None => fields,
    }
}

/// Gives a field a value, where there is a value.
pub fn set_json(fields: &mut JsonObject, key: &str, value: &Option<Json>)
    ensures
        final(fields)@ == with_json(old(fields)@, key@, crate::data::opt_view(*value)),
{
    if let Some(v) = value {
        fields.set(key, v.copy());
    }
}

/// The fields with one flag more, where there is a flag.
pub open spec fn with_bool(
    fields: Map<Seq<char>, JsonView>,
    key: Seq<char>,
    flag: Option<bool>,
) -> Map<
    Seq<char>,
    JsonView,
> {
    match flag {
        Some(b) => fields.insert(key, JsonView::Bool(b)),
        None => fields,
    }
}

/// Gives a field a flag, where there is a flag.
pub fn set_bool(fields: &mut JsonObject, key: &str, flag: Option<bool>)
    ensures
        final(fields)@ == with_bool(old(fields)@, key@, flag),
{
    if let Some(b) = flag {
        fields.set(key, Json::Bool(b));
    }
}

/// The JSON value of an unsigned integer.
pub open spec fn u64_json(value: u64) -> JsonView {
    JsonView::Number(crate::text::decimal_text(value as nat))
}

/// The fields with one number more, where there is a number.
pub open spec fn with_u64(
    fields: Map<Seq<char>, JsonView>,
    key: Seq<char>,
    value: Option<u64>,
) -> Map<
    Seq<char>,
    JsonView,
> {
    match value {
        Some(v) => fields.insert(key, u64_json(v)),
        None => fields,
    }
}

/// Gives a field a number, where there is a number.
pub fn set_u64(fields: &mut JsonObject, key: &str, value: Option<u64>)
    ensures
        final(fields)@ == with_u64(old(fields)@, key@, value),
{
    if let Some(v) = value {
        fields.set(key, Json::Number(JsonNumber::from_u64(v)));
    }
}

/// The fields with one number more, where there is a number.
pub open spec fn with_number(
    fields: Map<Seq<char>, JsonView>,
    key: Seq<char>,
    value: Option<Seq<char>>,
) -> Map<Seq<char>, JsonView> {
    match value {
        Some(v) => fields.insert(key, JsonView::Number(v)),
        None => fields,
    }
}

/// Gives a field a number, where there is a number.
pub fn set_number(fields: &mut JsonObject, key: &str, value: &Option<JsonNumber>)
    ensures
        final(fields)@ == with_number(old(fields)@, key@, crate::data::opt_view(*value)),
{
    if let Some(v) = value {
        fields.set(key, Json::Number(v.copy()));
    }
}

/// The fields with one list more, where there is a list.
pub open spec fn with_list<T: ToJson>(
    fields: Map<Seq<char>, JsonView>,
    key: Seq<char>,
    list: Option<Seq<T::V>>,
) -> Map<Seq<char>, JsonView> {
    match list {
        Some(l) => fields.insert(key, JsonView::Array(list_json::<T>(l))),
        None => fields,
    }
}

/// Gives a field a list, where there is a list.
pub fn set_list<T: ToJson>(fields: &mut JsonObject, key: &str, list: &Option<Vec<T>>)
    ensures
        final(fields)@ == with_list::<T>(old(fields)@, key@, crate::data::opt_views(*list)),
{
    if let Some(l) = list {
        let json = write_list::<T>(l);
        fields.set(key, json);
    }
}

/// The fields without the ones named.
pub open spec fn without(
    fields: Map<Seq<char>, JsonView>,
    keys: Seq<Seq<char>>,
) -> Map<Seq<char>, JsonView>
    decreases keys.len(),
{
    if keys.len() == 0 {
        fields
    } else {
        without(fields, keys.drop_last()).remove(keys.last())
    }
}

/// A copy of the fields without the ones named.
pub fn copy_without(fields: &JsonObject, keys: &Vec<&'static str>) -> (out: JsonObject)
    ensures
        out@ == without(fields@, keys@.map_values(|k: &'static str| k@)),
{
    let ghost names = keys@.map_values(|k: &'static str| k@);
    let mut out = fields.copy();
    let mut i: usize = 0;
    while i < keys.len()
        invariant
            i <= keys@.len(),
            names == keys@.map_values(|k: &'static str| k@),
            out@ == without(fields@, names.take(i as int)),
        decreases keys@.len() - i,
    {
        proof {
            assert(names.take(i + 1).drop_last() =~= names.take(i as int));
        }
        out.remove(keys[i]);
        i = i + 1;
    }
    proof {
        assert(names.take(names.len() as int) =~= names);
    }
    out
}

/// Whether the text is one of two.
pub fn is_either(text: &str, a: &str, b: &str) -> (yes: bool)
    ensures
        yes == (text@ == a@ || text@ == b@),
{
    same_text(text, a) || same_text(text, b)
}

/// The text of the first `n` fields, in the order in which they are given.
pub open spec fn fields_text(fields: Seq<(Seq<char>, JsonView)>, n: int) -> Seq<char>
    decreases n,
{
    if n <= 0 {
        Seq::empty()
    } else {
        let before = if n == 1 {
            Seq::empty()
        } else {
            fields_text(fields, n - 1) + ","@
        };
        before + crate::json::json_text(JsonView::Text(fields[n - 1].0)) + ":"@
            + crate::json::json_text(fields[n - 1].1)
    }
}

/// The text of an object whose fields keep the order in which they are given.
pub open spec fn record_text(fields: Seq<(Seq<char>, JsonView)>) -> Seq<char> {
    "{"@ + fields_text(fields, fields.len() as int) + "}"@
}

/// The views of fields with their names.
pub open spec fn named_views(fields: Seq<(&'static str, Json)>) -> Seq<(Seq<char>, JsonView)> {
    fields.map_values(|f: (&'static str, Json)| (f.0@, f.1@))
}

/// The text of an object whose fields keep the order in which they are given.
pub fn write_record(fields: &Vec<(&'static str, Json)>) -> (text: String)
    ensures
        text@ == record_text(named_views(fields@)),
{
    let ghost all = named_views(fields@);
    let mut text = String::new();
    let mut i: usize = 0;
    proof {
        assert(text@ =~= Seq::empty());
    }
    while i < fields.len()
        invariant
            i <= fields@.len(),
            all == named_views(fields@),
            text@ == fields_text(all, i as int),
        decreases fields@.len() - i,
    {
        let ghost before = text@;
        if i > 0 {
            text.append(",");
        }
        let key = Json::text(fields[i].0).to_text();
        let value = fields[i].1.to_text();
        text.append(key.as_str());
        text.append(":");
        text.append(value.as_str());
        proof {
            assert(all[i as int] == (fields@[i as int].0@, fields@[i as int].1@));
            let start = if i == 0 {
                Seq::empty()
            } else {
                before + ","@
            };
            assert(text@ =~= start + crate::json::json_text(JsonView::Text(all[i as int].0)) + ":"@
                + crate::json::json_text(all[i as int].1));
        }
        i = i + 1;
    }
    concat3("{", text.as_str(), "}")
}

/// Those of the first `n` names that are fields, with their values, in the order of the
/// names.
pub open spec fn picked(
    names: Seq<Seq<char>>,
    fields: Map<Seq<char>, JsonView>,
    n: int,
) -> Seq<(Seq<char>, JsonView)>
    decreases n,
{
    if n <= 0 {
        Seq::empty()
    } else {
        match crate::json::object_field(fields, names[n - 1]) {
            Some(value) => picked(names, fields, n - 1).push((names[n - 1], value)),
            None => picked(names, fields, n - 1),
        }
    }
}

/// The text of an object, its fields in the order of their names in a list.
pub fn write_in_order(names: &Vec<&'static str>, fields: &JsonObject) -> (text: String)
    ensures
        text@ == record_text(
            picked(crate::data::views(names@), fields@, names@.len() as int),
        ),
{
    let ghost all = crate::data::views(names@);
    let mut given: Vec<(&'static str, Json)> = Vec::new();
    let mut i: usize = 0;
    proof {
        assert(named_views(given@) =~= Seq::empty());
    }
    while i < names.len()
        invariant
            i <= names@.len(),
            all == crate::data::views(names@),
            named_views(given@) == picked(all, fields@, i as int),
        decreases names@.len() - i,
    {
        let name = names[i];
        proof {
            assert(all[i as int] == name@);
        }
        if let Some(value) = fields.get(name) {
            let ghost before = given@;
            let field = (name, value.copy());
            given.push(field);
            proof {
                assert(named_views(given@) =~= named_views(before).push((name@, value@)));
            }
        }
        i = i + 1;
    }
    write_record(&given)
}

} // verus!
