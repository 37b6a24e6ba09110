//! Lookup tables and sets over plain data, kept in insertion order.
use vstd::prelude::*;

use crate::data::Data;

verus! {

/// A table from keys to values. No key occurs twice.
#[derive(Debug)]
pub struct Table<K: Data, W: Data> {
    entries: Vec<(K, W)>,
}

/// A set of keys. No key occurs twice.
#[derive(Debug)]
pub struct Keys<K: Data> {
    items: Vec<K>,
}

closed spec fn table_view<K: View, W: View>(entries: Seq<(K, W)>) -> Map<K::V, W::V>
    decreases entries.len(),
{
    if entries.len() == 0 {
        Map::empty()
    } else {
        table_view(entries.drop_last()).insert(entries.last().0@, entries.last().1@)
    }
}

closed spec fn distinct_keys<K: View, W: View>(entries: Seq<(K, W)>) -> bool {
    forall|i: int, j: int|
        0 <= i < j < entries.len() ==> (#[trigger] entries[i]).0@ != (#[trigger] entries[j]).0@
}

proof fn table_view_at<K: View, W: View>(entries: Seq<(K, W)>, at: int)
    requires
        distinct_keys(entries),
        0 <= at < entries.len(),
    ensures
        table_view(entries).contains_key(entries[at].0@),
        table_view(entries)[entries[at].0@] == entries[at].1@,
    decreases entries.len(),
{
    if at < entries.len() - 1 {
        let rest = entries.drop_last();
        assert(distinct_keys(rest)) by {
            assert forall|i: int, j: int| 0 <= i < j < rest.len() implies (#[trigger] rest[i]).0@ != (
            #[trigger] rest[j]).0@ by {
                assert(entries[i].0@ != entries[j].0@);
            }
        }
        table_view_at(rest, at);
        assert(entries[at].0@ != entries[entries.len() - 1].0@);
    }
}

proof fn table_view_domain<K: View, W: View>(entries: Seq<(K, W)>)
    ensures
        forall|k: K::V|
            table_view(entries).contains_key(k) <==> exists|i: int|
                0 <= i < entries.len() && (#[trigger] entries[i]).0@ == k,
    decreases entries.len(),
{
    if entries.len() > 0 {
        let rest = entries.drop_last();
        table_view_domain(rest);
        assert forall|k: K::V| #[trigger] table_view(entries).contains_key(k) implies exists|i: int|
            0 <= i < entries.len() && (#[trigger] entries[i]).0@ == k by {
            if table_view(rest).contains_key(k) {
                let i = choose|i: int| 0 <= i < rest.len() && (#[trigger] rest[i]).0@ == k;
                assert(entries[i].0@ == k);
            } else {
                assert(entries[entries.len() - 1].0@ == k);
            }
        }
        assert forall|k: K::V|
            (exists|i: int| 0 <= i < entries.len() && (#[trigger] entries[i]).0@ == k)
                implies #[trigger] table_view(entries).contains_key(k) by {
            let i = choose|i: int| 0 <= i < entries.len() && (#[trigger] entries[i]).0@ == k;
            if i < rest.len() {
                assert(rest[i].0@ == k);
                assert(table_view(rest).contains_key(k));
            }
        }
    }
}

proof fn table_view_len<K: View, W: View>(entries: Seq<(K, W)>)
    requires
        distinct_keys(entries),
    ensures
        table_view(entries).dom().finite(),
        table_view(entries).dom().len() == entries.len(),
    decreases entries.len(),
{
    if entries.len() > 0 {
        let rest = entries.drop_last();
        assert(distinct_keys(rest)) by {
            assert forall|i: int, j: int| 0 <= i < j < rest.len() implies (#[trigger] rest[i]).0@ != (
            #[trigger] rest[j]).0@ by {
                assert(entries[i].0@ != entries[j].0@);
            }
        }
        table_view_len(rest);
        table_view_domain(rest);
        let k = entries.last().0@;
        assert(!table_view(rest).contains_key(k)) by {
            if table_view(rest).contains_key(k) {
                let i = choose|i: int| 0 <= i < rest.len() && (#[trigger] rest[i]).0@ == k;
                assert(entries[i].0@ != entries[entries.len() - 1].0@);
            }
        }
        assert(table_view(entries).dom() =~= table_view(rest).dom().insert(k));
    } else {
        assert(table_view(entries).dom() =~= Set::empty());
    }
}

impl<K: Data, W: Data> View for Table<K, W> {
    type V = Map<K::V, W::V>;

    closed spec fn view(&self) -> Map<K::V, W::V> {
        table_view(self.entries@)
    }
}

impl<K: Data, W: Data> Table<K, W> {
    #[verifier::type_invariant]
    spec fn well_formed(self) -> bool {
        distinct_keys(self.entries@)
    }

    /// The keys in insertion order.
    pub closed spec fn keys(&self) -> Seq<K::V> {
        self.entries@.map_values(|e: (K, W)| e.0@)
    }

    /// A table without entries.
    pub fn new() -> (table: Table<K, W>)
        ensures
            table@ == Map::<K::V, W::V>::empty(),
    {
        Table { entries: Vec::new() }
    }

    /// Takes the entries out and leaves an empty table.
    fn take_entries(&mut self) -> (entries: Vec<(K, W)>)
        ensures
            entries@ == old(self).entries@,
            final(self)@ == Map::<K::V, W::V>::empty(),
    {
        let mut taken = Table::new();
        core::mem::swap(self, &mut taken);
        taken.entries
    }

    fn position(&self, key: &K) -> (at: Option<usize>)
        ensures
            at is Some == self@.contains_key(key@),
            at matches Some(i) ==> i < self.entries@.len() && self.entries@[i as int].0@ == key@
                && self.entries@[i as int].1@ == self@[key@],
    {
        proof {
            use_type_invariant(self);
            table_view_domain(self.entries@);
        }
        let mut i: usize = 0;
        while i < self.entries.len()
            invariant
                i <= self.entries@.len(),
                distinct_keys(self.entries@),
                forall|j: int| 0 <= j < i ==> (#[trigger] self.entries@[j]).0@ != key@,
            decreases self.entries@.len() - i,
        {
            if self.entries[i].0.same(key) {
                proof {
                    table_view_at(self.entries@, i as int);
                }
                return Some(i);
            }
            i = i + 1;
        }
        None
    }

    /// The value of a key.
    pub fn get(&self, key: &K) -> (value: Option<&W>)
        ensures
            value is Some == self@.contains_key(key@),
            value matches Some(v) ==> v@ == self@[key@],
    {
        match self.position(key) {
            Some(i) => Some(&self.entries[i].1),
            None => None,
        }
    }

    /// Whether the table has the key.
    pub fn contains_key(&self, key: &K) -> (yes: bool)
        ensures
            yes == self@.contains_key(key@),
    {
        self.position(key).is_some()
    }

    /// The number of keys. Every key has a position below it.
    pub fn len(&self) -> (n: usize)
        ensures
            n == self@.dom().len(),
            self@.dom().finite(),
            n == self.keys().len(),
            forall|k: K::V| self@.contains_key(k) <==> self.keys().contains(k),
    {
        proof {
            use_type_invariant(self);
            table_view_len(self.entries@);
            table_view_domain(self.entries@);
            assert forall|k: K::V| self@.contains_key(k) <==> self.keys().contains(k) by {
                if self@.contains_key(k) {
                    let i = choose|i: int| 0 <= i < self.entries@.len() && (#[trigger] self.entries@[i]).0@ == k;
                    assert(self.keys()[i] == k);
                }
                if self.keys().contains(k) {
                    let i = choose|i: int| 0 <= i < self.keys().len() && self.keys()[i] == k;
                    assert(self.entries@[i].0@ == k);
                }
            }
        }
        self.entries.len()
    }

    /// Whether the table has no keys.
    pub fn is_empty(&self) -> (yes: bool)
        ensures
            yes == (self@ == Map::<K::V, W::V>::empty()),
    {
        proof {
            table_view_domain(self.entries@);
            if self.entries@.len() > 0 {
                assert(self@.contains_key(self.entries@[0].0@));
            }
        }
        self.entries.len() == 0
    }

    /// The key at a position.
    pub fn key_at(&self, at: usize) -> (key: &K)
        requires
            at < self.keys().len(),
        ensures
            key@ == self.keys()[at as int],
            self@.contains_key(key@),
    {
        proof {
            use_type_invariant(self);
            table_view_at(self.entries@, at as int);
        }
        &self.entries[at].0
    }

    /// The value of the key at a position.
    pub fn value_at(&self, at: usize) -> (value: &W)
        requires
            at < self.keys().len(),
        ensures
            self@.contains_key(self.keys()[at as int]),
            value@ == self@[self.keys()[at as int]],
    {
        proof {
            use_type_invariant(self);
            table_view_at(self.entries@, at as int);
        }
        &self.entries[at].1
    }

    /// A table like `entries` with the entry at `at` replaced or, past the end,
    /// with one entry more.
    proof fn update_view(entries: Seq<(K, W)>, at: int, entry: (K, W))
        requires
            distinct_keys(entries),
            0 <= at < entries.len(),
            entries[at].0@ == entry.0@,
        ensures
            distinct_keys(entries.update(at, entry)),
            table_view(entries.update(at, entry)) == table_view(entries).insert(entry.0@, entry.1@),
        decreases entries.len(),
    {
        let after = entries.update(at, entry);
        assert forall|i: int, j: int| 0 <= i < j < after.len() implies (#[trigger] after[i]).0@ != (
        #[trigger] after[j]).0@ by {
            assert(entries[i].0@ != entries[j].0@);
        }
        let rest = entries.drop_last();
        if at < rest.len() {
            assert(after.drop_last() =~= rest.update(at, entry));
            assert(distinct_keys(rest)) by {
                assert forall|i: int, j: int| 0 <= i < j < rest.len() implies (#[trigger] rest[i]).0@
                    != (#[trigger] rest[j]).0@ by {
                    assert(entries[i].0@ != entries[j].0@);
                }
            }
            Self::update_view(rest, at, entry);
            assert(entries[at].0@ != entries[entries.len() - 1].0@);
            assert(table_view(after) =~= table_view(entries).insert(entry.0@, entry.1@));
        } else {
            assert(after.drop_last() =~= rest);
            assert(table_view(after) =~= table_view(entries).insert(entry.0@, entry.1@));
        }
    }

    proof fn push_view(entries: Seq<(K, W)>, entry: (K, W))
        requires
            distinct_keys(entries),
            !table_view(entries).contains_key(entry.0@),
        ensures
            distinct_keys(entries.push(entry)),
            table_view(entries.push(entry)) == table_view(entries).insert(entry.0@, entry.1@),
    {
        let after = entries.push(entry);
        table_view_domain(entries);
        assert forall|i: int, j: int| 0 <= i < j < after.len() implies (#[trigger] after[i]).0@ != (
        #[trigger] after[j]).0@ by {
            if j < entries.len() {
                assert(entries[i].0@ != entries[j].0@);
            } else {
                assert(entries[i].0@ == after[i].0@);
                assert(table_view(entries).contains_key(entries[i].0@));
            }
        }
        assert(after.drop_last() =~= entries);
    }

    /// Gives the key a value, whether or not it had one.
    pub fn insert(&mut self, key: K, value: W)
        ensures
            final(self)@ == old(self)@.insert(key@, value@),
    {
        proof {
            use_type_invariant(&*self);
        }
        match self.position(&key) {
            Some(i) => {
                let entry = (key, value);
                proof {
                    Self::update_view(self.entries@, i as int, entry);
                }
                let mut entries = self.take_entries();
                entries.set(i, entry);
                *self = Table { entries };
            },
            None => {
                let entry = (key, value);
                proof {
                    Self::push_view(self.entries@, entry);
                }
                let mut entries = self.take_entries();
                entries.push(entry);
                *self = Table { entries };
            },
        }
    }

    /// Gives the key a value, unless it has one.
    pub fn insert_new(&mut self, key: K, value: W)
        ensures
            final(self)@ == (if old(self)@.contains_key(key@) {
                old(self)@
            } else {
                old(self)@.insert(key@, value@)
            }),
    {
        proof {
            use_type_invariant(&*self);
        }
        if self.position(&key).is_none() {
            let entry = (key, value);
            proof {
                Self::push_view(self.entries@, entry);
            }
            let mut entries = self.take_entries();
            entries.push(entry);
            *self = Table { entries };
        }
    }

    /// Takes the key away, and gives back the value that it had.
    pub fn remove(&mut self, key: &K) -> (value: Option<W>)
        ensures
            final(self)@ == old(self)@.remove(key@),
            value is Some == old(self)@.contains_key(key@),
            value matches Some(v) ==> v@ == old(self)@[key@],
    {
        proof {
            use_type_invariant(&*self);
        }
        match self.position(key) {
            Some(at) => {
                let ghost before = self.entries@;
                let ghost after = before.remove(at as int);
                proof {
                    assert forall|i: int, j: int| 0 <= i < j < after.len() implies (#[trigger] after[i]).0@
                        != (#[trigger] after[j]).0@ by {
                        let a = if i < at { i } else { i + 1 };
                        let b = if j < at { j } else { j + 1 };
                        assert(before[a].0@ != before[b].0@);
                    }
                    table_view_domain(before);
                    table_view_domain(after);
                    assert forall|k: K::V| #[trigger] table_view(after).contains_key(k) implies table_view(
                        before,
                    ).remove(key@).contains_key(k) && table_view(after)[k] == table_view(before)[k] by {
                        let i = choose|i: int| 0 <= i < after.len() && (#[trigger] after[i]).0@ == k;
                        let a = if i < at { i } else { i + 1 };
                        assert(after[i] == before[a]);
                        if a < at {
                            assert(before[a].0@ != before[at as int].0@);
                        } else {
                            assert(before[at as int].0@ != before[a].0@);
                        }
                        table_view_at(after, i);
                        table_view_at(before, a);
                    }
                    assert forall|k: K::V| #[trigger]
                        table_view(before).remove(key@).contains_key(k) implies table_view(
                        after,
                    ).contains_key(k) by {
                        assert(table_view(before).contains_key(k));
                        let a = choose|a: int| 0 <= a < before.len() && (#[trigger] before[a]).0@ == k;
                        let i = if a < at { a } else { a - 1 };
                        assert(after[i] == before[a]);
                    }
                    assert(table_view(after) =~= table_view(before).remove(key@));
                }
                let mut entries = self.take_entries();
                let entry = entries.remove(at);
                *self = Table { entries };
                Some(entry.1)
            },
            None => {
                proof {
                    assert(self@.remove(key@) =~= self@);
                }
                None
            },
        }
    }

    /// A table with the same entries.
    pub fn copy(&self) -> (table: Table<K, W>)
        ensures
            table@ == self@,
            table.keys() == self.keys(),
    {
        proof {
            use_type_invariant(self);
        }
        let mut entries: Vec<(K, W)> = Vec::new();
        let mut i: usize = 0;
        while i < self.entries.len()
            invariant
                i <= self.entries@.len(),
                entries@.len() == i,
                forall|j: int|
                    0 <= j < i ==> (#[trigger] entries@[j]).0@ == self.entries@[j].0@ && entries@[j].1@
                        == self.entries@[j].1@,
                table_view(entries@) == table_view(self.entries@.take(i as int)),
            decreases self.entries@.len() - i,
        {
            let ghost before = entries@;
            let entry = (self.entries[i].0.copied(), self.entries[i].1.copied());
            entries.push(entry);
            proof {
                assert(entries@.drop_last() =~= before);
                assert(self.entries@.take(i + 1).drop_last() =~= self.entries@.take(i as int));
            }
            i = i + 1;
        }
        proof {
            assert(self.entries@.take(self.entries@.len() as int) =~= self.entries@);
            assert forall|i: int, j: int| 0 <= i < j < entries@.len() implies (#[trigger] entries@[i]).0@
                != (#[trigger] entries@[j]).0@ by {
                assert(self.entries@[i].0@ != self.entries@[j].0@);
            }
        }
        let table = Table { entries };
        proof {
            assert(table.keys() =~= self.keys());
        }
        table
    }
}

impl<K: Data> View for Keys<K> {
    type V = Set<K::V>;

    closed spec fn view(&self) -> Set<K::V> {
        crate::data::views(self.items@).to_set()
    }
}

impl<K: Data> Keys<K> {
    #[verifier::type_invariant]
    spec fn well_formed(self) -> bool {
        crate::data::views(self.items@).no_duplicates()
    }

    /// The keys in insertion order.
    pub closed spec fn seq(&self) -> Seq<K::V> {
        crate::data::views(self.items@)
    }

    /// A set without keys.
    pub fn new() -> (keys: Keys<K>)
        ensures
            keys@ == Set::<K::V>::empty(),
    {
        let keys = Keys { items: Vec::new() };
        proof {
            assert(keys@ =~= Set::<K::V>::empty());
        }
        keys
    }

    /// Takes the keys out and leaves an empty set.
    fn take_items(&mut self) -> (items: Vec<K>)
        ensures
            items@ == old(self).items@,
            final(self)@ == Set::<K::V>::empty(),
    {
        let mut taken = Keys::new();
        core::mem::swap(self, &mut taken);
        taken.items
    }

    /// Whether the key is in the set.
    pub fn contains(&self, key: &K) -> (yes: bool)
        ensures
            yes == self@.contains(key@),
    {
        let mut i: usize = 0;
        while i < self.items.len()
            invariant
                i <= self.items@.len(),
                forall|j: int| 0 <= j < i ==> (#[trigger] self.items@[j])@ != key@,
            decreases self.items@.len() - i,
        {
            if self.items[i].same(key) {
                proof {
                    assert(crate::data::views(self.items@)[i as int] == key@);
                }
                return true;
            }
            i = i + 1;
        }
        false
    }

    /// Puts the key into the set, and says whether it is new there.
    pub fn insert(&mut self, key: K) -> (new: bool)
        ensures
            final(self)@ == old(self)@.insert(key@),
            new == !old(self)@.contains(key@),
    {
        proof {
            use_type_invariant(&*self);
        }
        if self.contains(&key) {
            proof {
                assert(self@.insert(key@) =~= self@);
            }
            return false;
        }
        let ghost before = crate::data::views(self.items@);
        proof {
            crate::data::views_push(self.items@, key);
            assert forall|i: int, j: int|
                0 <= i < before.push(key@).len() && 0 <= j < before.push(key@).len() && i != j implies #[trigger] before.push(
                key@,
            )[i] != #[trigger] before.push(key@)[j] by {
                if i == before.len() {
                    assert(before.contains(before[j]));
                }
                if j == before.len() {
                    assert(before.contains(before[i]));
                }
            }
            assert(before.push(key@).to_set() =~= before.to_set().insert(key@)) by {
                assert forall|k: K::V| #[trigger]
                    before.to_set().insert(key@).contains(k) implies before.push(key@).to_set().contains(k) by {
                    if before.contains(k) {
                        let i = choose|i: int| 0 <= i < before.len() && before[i] == k;
                        assert(before.push(key@)[i] == k);
                    } else {
                        assert(before.push(key@)[before.len() as int] == k);
                    }
                }
            }
        }
        let mut items = self.take_items();
        items.push(key);
        *self = Keys { items };
        true
    }

    /// Takes the key out of the set.
    pub fn remove(&mut self, key: &K)
        ensures
            final(self)@ == old(self)@.remove(key@),
    {
        proof {
            use_type_invariant(&*self);
        }
        let mut i: usize = 0;
        while i < self.items.len()
            invariant
                i <= self.items@.len(),
                self.items@ == old(self).items@,
                crate::data::views(self.items@).no_duplicates(),
                forall|j: int| 0 <= j < i ==> (#[trigger] self.items@[j])@ != key@,
            decreases self.items@.len() - i,
        {
            if self.items[i].same(key) {
                let ghost before = crate::data::views(self.items@);
                let ghost after = crate::data::views(self.items@.remove(i as int));
                proof {
                    assert(after =~= before.remove(i as int));
                    assert forall|a: int, b: int| 0 <= a < after.len() && 0 <= b < after.len() && a != b
                        implies #[trigger] after[a] != #[trigger] after[b] by {
                        let x = if a < i { a } else { a + 1 };
                        let y = if b < i { b } else { b + 1 };
                        assert(before[x] != before[y]);
                    }
                    assert(before[i as int] == key@);
                    assert forall|k: K::V| #[trigger] after.to_set().contains(k) <==> before.to_set().remove(
                        key@,
                    ).contains(k) by {
                        if after.contains(k) {
                            let a = choose|a: int| 0 <= a < after.len() && after[a] == k;
                            let x = if a < i { a } else { a + 1 };
                            assert(before[x] == k);
                        }
                        if before.contains(k) && k != key@ {
                            let x = choose|x: int| 0 <= x < before.len() && before[x] == k;
                            let a = if x < i { x } else { x - 1 };
                            assert(after[a] == k);
                        }
                    }
                    assert(after.to_set() =~= before.to_set().remove(key@));
                }
                let mut items = self.take_items();
                let _ = items.remove(i);
                *self = Keys { items };
                return ;
            }
            i = i + 1;
        }
        proof {
            assert(!self@.contains(key@)) by {
                if self@.contains(key@) {
                    let j = choose|j: int| 0 <= j < self.items@.len() && crate::data::views(self.items@)[j] == key@;
                    assert(self.items@[j]@ == key@);
                }
            }
            assert(self@.remove(key@) =~= self@);
        }
    }

    /// The number of keys. Every key has a position below it.
    pub fn len(&self) -> (n: usize)
        ensures
            n == self.seq().len(),
            n == self@.len(),
            self@ == self.seq().to_set(),
    {
        proof {
            use_type_invariant(self);
            self.seq().unique_seq_to_set();
        }
        self.items.len()
    }

    /// The key at a position.
    pub fn at(&self, at: usize) -> (key: &K)
        requires
            at < self.seq().len(),
        ensures
            key@ == self.seq()[at as int],
    {
        &self.items[at]
    }

    /// A set of the same keys.
    pub fn copy(&self) -> (keys: Keys<K>)
        ensures
            keys@ == self@,
            keys.seq() == self.seq(),
    {
        proof {
            use_type_invariant(self);
        }
        Keys { items: crate::data::copy_vec(&self.items) }
    }
}

impl<K: Data, W: Data> Clone for Table<K, W> {
    fn clone(&self) -> (table: Table<K, W>)
        ensures
            table@ == self@,
    {
        self.copy()
    }
}

impl<K: Data> Clone for Keys<K> {
    fn clone(&self) -> (keys: Keys<K>)
        ensures
            keys@ == self@,
    {
        self.copy()
    }
}

impl Data for u32 {
    fn copied(&self) -> (out: u32) {
        *self
    }

    fn same(&self, other: &u32) -> (yes: bool) {
        *self == *other
    }
}

impl Data for usize {
    fn copied(&self) -> (out: usize) {
        *self
    }

    fn same(&self, other: &usize) -> (yes: bool) {
        *self == *other
    }
}

impl Data for (String, String) {
    fn copied(&self) -> (out: (String, String)) {
        (self.0.clone(), self.1.clone())
    }

    fn same(&self, other: &(String, String)) -> (yes: bool) {
        self.0.same(&other.0) && self.1.same(&other.1)
    }
}

} // verus!
