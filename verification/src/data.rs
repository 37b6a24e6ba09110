//! Plain data: types whose values can be copied and compared, each with a
//! mathematical view.
use vstd::prelude::*;

use crate::json::{Json, JsonNumber, JsonObject};
use crate::text::same_text;

verus! {

/// A type of plain data. A copy has the same view, and two values are the same
/// where their views are.
pub trait Data: View + Sized {
    fn copied(&self) -> (out: Self)
        ensures
            out@ == self@,
    ;

    fn same(&self, other: &Self) -> (yes: bool)
        ensures
            yes == (self@ == other@),
    ;
}

/// The views of a sequence of values.
pub open spec fn views<T: View>(s: Seq<T>) -> Seq<T::V> {
    s.map_values(|t: T| t@)
}

/// The view of a value that may be absent.
pub open spec fn opt_view<T: View>(o: Option<T>) -> Option<T::V> {
    match o {
        Some(t) => Some(t@),
        None => None,
    }
}

/// The views of a list of values that may be absent.
pub open spec fn opt_views<T: View>(o: Option<Vec<T>>) -> Option<Seq<T::V>> {
    match o {
        Some(v) => Some(views(v@)),
        None => None,
    }
}

/// The views of a longer sequence.
pub broadcast proof fn views_push<T: View>(s: Seq<T>, t: T)
    ensures
        #[trigger] views(s.push(t)) == views(s).push(t@),
{
    assert(views(s.push(t)) =~= views(s).push(t@));
}

impl Data for String {
    fn copied(&self) -> (out: String) {
        self.clone()
    }

    fn same(&self, other: &String) -> (yes: bool) {
        same_text(self.as_str(), other.as_str())
    }
}

impl Data for Json {
    fn copied(&self) -> (out: Json) {
        self.copy()
    }

    fn same(&self, other: &Json) -> (yes: bool) {
        Json::same(self, other)
    }
}

impl Data for JsonNumber {
    fn copied(&self) -> (out: JsonNumber) {
        self.copy()
    }

    fn same(&self, other: &JsonNumber) -> (yes: bool) {
        same_text(self.as_str(), other.as_str())
    }
}

impl Data for JsonObject {
    fn copied(&self) -> (out: JsonObject) {
        self.copy()
    }

    fn same(&self, other: &JsonObject) -> (yes: bool) {
        JsonObject::same(self, other)
    }
}

/// Copies of all items, in order.
pub fn copy_vec<T: Data>(items: &Vec<T>) -> (out: Vec<T>)
    ensures
        views(out@) == views(items@),
{
    let mut out: Vec<T> = Vec::new();
    let mut i: usize = 0;
    while i < items.len()
        invariant
            i <= items@.len(),
            out@.len() == i,
            forall|j: int| 0 <= j < i ==> (#[trigger] out@[j])@ == items@[j]@,
        decreases items@.len() - i,
    {
        let item = items[i].copied();
        out.push(item);
        i = i + 1;
    }
    proof {
        assert(views(out@) =~= views(items@));
    }
    out
}

/// A copy of a value that may be absent.
pub fn copy_opt<T: Data>(item: &Option<T>) -> (out: Option<T>)
    ensures
        opt_view(out) == opt_view(*item),
{
    match item {
        Some(t) => Some(t.copied()),
        None => None,
    }
}

/// A copy of a list that may be absent.
pub fn copy_opt_vec<T: Data>(items: &Option<Vec<T>>) -> (out: Option<Vec<T>>)
    ensures
        opt_views(out) == opt_views(*items),
{
    match items {
        Some(v) => Some(copy_vec(v)),
        None => None,
    }
}

/// Whether two lists hold the same values in the same order.
pub fn same_vec<T: Data>(a: &Vec<T>, b: &Vec<T>) -> (yes: bool)
    ensures
        yes == (views(a@) == views(b@)),
{
    if a.len() != b.len() {
        proof {
            assert(views(a@).len() != views(b@).len());
        }
        return false;
    }
    let mut i: usize = 0;
    while i < a.len()
        invariant
            i <= a@.len() == b@.len(),
            forall|j: int| 0 <= j < i ==> (#[trigger] a@[j])@ == b@[j]@,
        decreases a@.len() - i,
    {
        if !a[i].same(&b[i]) {
            proof {
                assert(views(a@)[i as int] != views(b@)[i as int]);
            }
            return false;
        }
        i = i + 1;
    }
    proof {
        assert(views(a@) =~= views(b@));
    }
    true
}

/// Whether two values that may be absent are the same.
pub fn same_opt<T: Data>(a: &Option<T>, b: &Option<T>) -> (yes: bool)
    ensures
        yes == (opt_view(*a) == opt_view(*b)),
{
    match (a, b) {
        (Some(x), Some(y)) => x.same(y),
        (None, None) => true,
        _ => false,
    }
}

/// Whether two lists that may be absent are the same.
pub fn same_opt_vec<T: Data>(a: &Option<Vec<T>>, b: &Option<Vec<T>>) -> (yes: bool)
    ensures
        yes == (opt_views(*a) == opt_views(*b)),
{
    match (a, b) {
        (Some(x), Some(y)) => same_vec(x, y),
        (None, None) => true,
        _ => false,
    }
}

} // verus!
