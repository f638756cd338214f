//! A small map kept as a list of entries, no two of which share a key. Other
//! than `vstd`'s hash maps it can be listed, copied, and changed in place.

use vstd::prelude::*;

verus! {

/// A key of a [`Table`]: two keys are the same where their views are.
pub trait Key: View + Sized {
    fn same(&self, other: &Self) -> (yes: bool)
        ensures
            yes == (self@ == other@),
    ;
}

impl Key for String {
    fn same(&self, other: &Self) -> (yes: bool) {
        *self == *other
    }
}

/// No two entries share a key.
pub open spec fn distinct_keys<K: View, V>(entries: Seq<(K, V)>) -> bool {
    forall|i: int, j: int|
        0 <= i < j < entries.len() ==> #[trigger] entries[i].0@ != #[trigger] entries[j].0@
}

/// The map that a list of entries stands for; a later entry wins over an
/// earlier one with the same key.
pub open spec fn entry_map<K: View, V>(entries: Seq<(K, V)>) -> Map<K::V, V>
    decreases entries.len(),
{
    if entries.len() == 0 {
        Map::empty()
    } else {
        entry_map(entries.drop_last()).insert(entries.last().0@, entries.last().1)
    }
}

proof fn lemma_front_distinct<K: View, V>(entries: Seq<(K, V)>)
    requires
        distinct_keys(entries),
        entries.len() > 0,
    ensures
        distinct_keys(entries.drop_last()),
{
    let front = entries.drop_last();
    assert forall|a: int, b: int| 0 <= a < b < front.len() implies #[trigger] front[a].0@
        != #[trigger] front[b].0@ by {
        assert(entries[a].0@ != entries[b].0@);
    }
}

proof fn lemma_present<K: View, V>(entries: Seq<(K, V)>, i: int)
    requires
        distinct_keys(entries),
        0 <= i < entries.len(),
    ensures
        entry_map(entries).contains_key(entries[i].0@),
        entry_map(entries)[entries[i].0@] == entries[i].1,
    decreases entries.len(),
{
    if i < entries.len() - 1 {
        assert(entries.drop_last()[i] == entries[i]);
        lemma_front_distinct(entries);
        lemma_present(entries.drop_last(), i);
        assert(entries[i].0@ != entries[entries.len() - 1].0@);
    }
}

proof fn lemma_absent<K: View, V>(entries: Seq<(K, V)>, key: K::V)
    requires
        forall|i: int| 0 <= i < entries.len() ==> #[trigger] entries[i].0@ != key,
    ensures
        !entry_map(entries).contains_key(key),
    decreases entries.len(),
{
    if entries.len() > 0 {
        assert forall|i: int| 0 <= i < entries.drop_last().len() implies #[trigger] entries.drop_last()[i].0@ != key by {
            assert(entries[i].0@ != key);
        }
        lemma_absent(entries.drop_last(), key);
        assert(entries[entries.len() - 1].0@ != key);
    }
}

/// The entries of a list are those of its map.
proof fn lemma_listed<K: View, V>(entries: Seq<(K, V)>)
    requires
        distinct_keys(entries),
    ensures
        forall|i: int|
            0 <= i < entries.len() ==> {
                &&& entry_map(entries).contains_key((#[trigger] entries[i]).0@)
                &&& entry_map(entries)[entries[i].0@] == entries[i].1
            },
        forall|key: K::V| #[trigger]
            entry_map(entries).contains_key(key) ==> exists|i: int|
                0 <= i < entries.len() && (#[trigger] entries[i]).0@ == key,
{
    assert forall|i: int| 0 <= i < entries.len() implies {
        &&& entry_map(entries).contains_key((#[trigger] entries[i]).0@)
        &&& entry_map(entries)[entries[i].0@] == entries[i].1
    } by {
        lemma_present(entries, i);
    }
    assert forall|key: K::V| #[trigger] entry_map(entries).contains_key(key) implies exists|i: int|
        0 <= i < entries.len() && (#[trigger] entries[i]).0@ == key by {
        if forall|i: int| 0 <= i < entries.len() ==> #[trigger] entries[i].0@ != key {
            lemma_absent(entries, key);
        }
    }
}

/// Replacing the value of one entry changes the map at that key only.
proof fn lemma_replaced<K: View, V>(entries: Seq<(K, V)>, i: int, entry: (K, V))
    requires
        distinct_keys(entries),
        0 <= i < entries.len(),
        entry.0@ == entries[i].0@,
    ensures
        distinct_keys(entries.update(i, entry)),
        entry_map(entries.update(i, entry)) == entry_map(entries).insert(entry.0@, entry.1),
    decreases entries.len(),
{
    let updated = entries.update(i, entry);
    assert forall|a: int, b: int| 0 <= a < b < updated.len() implies #[trigger] updated[a].0@
        != #[trigger] updated[b].0@ by {
        assert(entries[a].0@ != entries[b].0@);
    }
    let last = entries.len() - 1;
    if i == last {
        assert(updated.drop_last() =~= entries.drop_last());
        assert(entry_map(updated) =~= entry_map(entries).insert(entry.0@, entry.1));
    } else {
        lemma_front_distinct(entries);
        assert(entries.drop_last()[i] == entries[i]);
        lemma_replaced(entries.drop_last(), i, entry);
        assert(updated.drop_last() =~= entries.drop_last().update(i, entry));
        assert(entries[i].0@ != entries[last].0@);
        assert(entry_map(updated) =~= entry_map(entries).insert(entry.0@, entry.1));
    }
}

/// The value of one entry, to be changed in place.
fn value_mut<K, V>(entries: &mut Vec<(K, V)>, i: usize) -> (value: &mut V)
    requires
        i < old(entries)@.len(),
    ensures
        *value == old(entries)@[i as int].1,
        final(entries)@ == old(entries)@.update(i as int, (old(entries)@[i as int].0, *final(value))),
    no_unwind
{
    &mut entries[i].1
}

/// A map from keys to values.
#[verifier::reject_recursive_types(K)]
#[verifier::reject_recursive_types(V)]
pub struct Table<K: Key, V> {
    entries: Vec<(K, V)>,
}

impl<K: Key, V> View for Table<K, V> {
    type V = Map<K::V, V>;

    closed spec fn view(&self) -> Map<K::V, V> {
        entry_map(self.entries@)
    }
}

impl<K: Key, V> Table<K, V> {
    #[verifier::type_invariant]
    spec fn well_formed(self) -> bool {
        distinct_keys(self.entries@)
    }

    /// The empty table.
    pub fn new() -> (table: Self)
        ensures
            table@ == Map::<K::V, V>::empty(),
    {
        Table { entries: Vec::new() }
    }

    /// The entries, one for each key.
    pub fn entries(&self) -> (entries: &Vec<(K, V)>)
        ensures
            distinct_keys(entries@),
            entry_map(entries@) == self@,
            forall|i: int|
                0 <= i < entries@.len() ==> {
                    &&& self@.contains_key((#[trigger] entries@[i]).0@)
                    &&& self@[entries@[i].0@] == entries@[i].1
                },
            forall|key: K::V| #[trigger]
                self@.contains_key(key) ==> exists|i: int|
                    0 <= i < entries@.len() && (#[trigger] entries@[i]).0@ == key,
    {
        proof {
            use_type_invariant(self);
            lemma_listed(self.entries@);
        }
        &self.entries
    }

    /// The value at `key`, if there is one.
    pub fn get(&self, key: &K) -> (value: Option<&V>)
        ensures
            match value {
                Some(v) => self@.contains_key(key@) && *v == self@[key@],
                None => !self@.contains_key(key@),
            },
    {
        proof {
            use_type_invariant(self);
        }
        let mut i: usize = 0;
        while i < self.entries.len()
            invariant
                i <= self.entries.len(),
                distinct_keys(self.entries@),
                forall|j: int| 0 <= j < i ==> #[trigger] self.entries@[j].0@ != key@,
            decreases self.entries.len() - i,
        {
            if self.entries[i].0.same(key) {
                proof {
                    lemma_present(self.entries@, i as int);
                }
                return Some(&self.entries[i].1);
            }
            i = i + 1;
        }
        proof {
            lemma_absent(self.entries@, key@);
        }
        None
    }

    /// The value at `key`, if there is one, to be changed in place.
    pub fn get_mut(&mut self, key: &K) -> (value: Option<&mut V>)
        ensures
            match value {
                Some(v) => {
                    &&& old(self)@.contains_key(key@)
                    &&& *v == old(self)@[key@]
                    &&& final(self)@ == old(self)@.insert(key@, *final(v))
                },
                None => !old(self)@.contains_key(key@) && final(self)@ == old(self)@,
            },
    {
        proof {
            use_type_invariant(&*self);
        }
        let ghost before = self.entries@;
        let mut i: usize = 0;
        while i < self.entries.len()
            invariant
                i <= self.entries.len(),
                self.entries@ == before,
                *self == *old(self),
                distinct_keys(before),
                forall|j: int| 0 <= j < i ==> #[trigger] before[j].0@ != key@,
            decreases self.entries.len() - i,
        {
            if self.entries[i].0.same(key) {
                proof {
                    lemma_present(before, i as int);
                }
                proof {
                    assert forall|v: V|
                        #![trigger before.update(i as int, (before[i as int].0, v))]
                        {
                            let after = before.update(i as int, (before[i as int].0, v));
                            &&& distinct_keys(after)
                            &&& entry_map(after) == entry_map(before).insert(key@, v)
                        } by {
                        lemma_replaced(before, i as int, (before[i as int].0, v));
                    }
                }
                return Some(value_mut(&mut self.entries, i));
            }
            i = i + 1;
        }
        proof {
            lemma_absent(before, key@);
        }
        None
    }

    /// Puts `value` at `key`, in place of what was there.
    pub fn insert(&mut self, key: K, value: V)
        ensures
            final(self)@ == old(self)@.insert(key@, value),
    {
        proof {
            use_type_invariant(&*self);
        }
        let mut entries: Vec<(K, V)> = Vec::new();
        std::mem::swap(&mut entries, &mut self.entries);
        let ghost before = entries@;
        let mut i: usize = 0;
        while i < entries.len()
            invariant
                i <= entries.len(),
                entries@ == before,
                old(self)@ == entry_map(before),
                distinct_keys(before),
                forall|j: int| 0 <= j < i ==> #[trigger] before[j].0@ != key@,
            decreases entries.len() - i,
        {
            if entries[i].0.same(&key) {
                proof {
                    lemma_replaced(before, i as int, (key, value));
                }
                entries.set(i, (key, value));
                self.entries = entries;
                return;
            }
            i = i + 1;
        }
        entries.push((key, value));
        proof {
            assert(entries@.drop_last() =~= before);
            assert forall|a: int, b: int| 0 <= a < b < entries@.len() implies #[trigger] entries@[a].0@
                != #[trigger] entries@[b].0@ by {
                assert(before[a].0@ != key@);
                if b < before.len() {
                    assert(before[a].0@ != before[b].0@);
                }
            }
        }
        self.entries = entries;
    }
}

impl Table<String, String> {
    /// A second table with the same contents.
    pub fn duplicate(&self) -> (copy: Self)
        ensures
            copy@ == self@,
    {
        proof {
            use_type_invariant(self);
        }
        let mut entries: Vec<(String, String)> = Vec::new();
        let mut i: usize = 0;
        while i < self.entries.len()
            invariant
                i <= self.entries.len(),
                entries@ == self.entries@.take(i as int),
            decreases self.entries.len() - i,
        {
            entries.push((self.entries[i].0.clone(), self.entries[i].1.clone()));
            i = i + 1;
            assert(entries@ =~= self.entries@.take(i as int));
        }
        assert(entries@ =~= self.entries@);
        Table { entries }
    }
}

} // verus!
