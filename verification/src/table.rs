//! Tables with text keys, in the order in which the keys were first entered.

use crate::text;
use vstd::prelude::*;

verus! {

/// The value of the first entry with a key.
pub open spec fn lookup<V>(entries: Seq<(String, V)>, key: Seq<char>) -> Option<V>
    decreases entries.len(),
{
    if entries.len() == 0 {
        None
    } else if entries[0].0@ == key {
        Some(entries[0].1)
    } else {
        lookup(entries.drop_first(), key)
    }
}

/// No key stands twice.
pub open spec fn distinct_keys<V>(entries: Seq<(String, V)>) -> bool {
    forall|i: int, j: int|
        0 <= i < j < entries.len() ==> (#[trigger] entries[i]).0@ != (#[trigger] entries[j]).0@
}

/// A table from text to values.
pub struct Table<V> {
    pub entries: Vec<(String, V)>,
}

/// The first position of a key is `i`, or there is none.
proof fn lemma_lookup_at<V>(entries: Seq<(String, V)>, key: Seq<char>, i: int)
    requires
        0 <= i <= entries.len(),
        forall|j: int| 0 <= j < i ==> (#[trigger] entries[j]).0@ != key,
        i < entries.len() ==> entries[i].0@ == key,
    ensures
        i < entries.len() ==> lookup(entries, key) == Some(entries[i].1),
        i == entries.len() ==> lookup(entries, key) is None,
    decreases entries.len(),
{
    if i > 0 {
        let rest = entries.drop_first();
        assert(forall|j: int| 0 <= j < rest.len() ==> #[trigger] rest[j] == entries[j + 1]);
        lemma_lookup_at(rest, key, i - 1);
        assert(entries[0].0@ != key);
    }
}

/// A key that has a value stands somewhere.
pub proof fn lookup_finds<V>(entries: Seq<(String, V)>, key: Seq<char>)
    ensures
        lookup(entries, key) matches Some(v) ==> exists|i: int|
            0 <= i < entries.len() && (#[trigger] entries[i]).0@ == key && entries[i].1 == v,
        lookup(entries, key) is None ==> forall|i: int|
            0 <= i < entries.len() ==> (#[trigger] entries[i]).0@ != key,
    decreases entries.len(),
{
    if entries.len() > 0 && entries[0].0@ != key {
        let rest = entries.drop_first();
        lookup_finds(rest, key);
        assert(forall|j: int| 0 <= j < rest.len() ==> #[trigger] rest[j] == entries[j + 1]);
        if lookup(rest, key) is Some {
            let i = choose|i: int|
                0 <= i < rest.len() && (#[trigger] rest[i]).0@ == key && rest[i].1 == lookup(
                    rest,
                    key,
                )->0;
            assert(entries[i + 1].0@ == key);
        } else {
            assert forall|i: int| 0 <= i < entries.len() implies (#[trigger] entries[i]).0@ != key by {
                if i > 0 {
                    assert(rest[i - 1] == entries[i]);
                }
            }
        }
    }
}

proof fn lemma_lookup_push<V>(entries: Seq<(String, V)>, e: (String, V), key: Seq<char>)
    ensures
        lookup(entries.push(e), key) == match lookup(entries, key) {
            Some(v) => Some(v),
            None => if e.0@ == key {
                Some(e.1)
            } else {
                None
            },
        },
    decreases entries.len(),
{
    if entries.len() == 0 {
        assert(entries.push(e).drop_first() =~= Seq::empty());
        assert(lookup(Seq::<(String, V)>::empty(), key) is None);
    } else {
        assert(entries.push(e).drop_first() =~= entries.drop_first().push(e));
        lemma_lookup_push(entries.drop_first(), e, key);
    }
}

proof fn lemma_lookup_update<V>(entries: Seq<(String, V)>, i: int, v: V, key: Seq<char>)
    requires
        0 <= i < entries.len(),
        forall|j: int| 0 <= j < i ==> (#[trigger] entries[j]).0@ != entries[i].0@,
    ensures
        lookup(entries.update(i, (entries[i].0, v)), key) == if key == entries[i].0@ {
            Some(v)
        } else {
            lookup(entries, key)
        },
    decreases entries.len(),
{
    let after = entries.update(i, (entries[i].0, v));
    if i == 0 {
        assert(after.drop_first() =~= entries.drop_first());
    } else {
        let rest = entries.drop_first();
        assert(forall|j: int| 0 <= j < rest.len() ==> #[trigger] rest[j] == entries[j + 1]);
        assert(after.drop_first() =~= rest.update(i - 1, (rest[i - 1].0, v)));
        lemma_lookup_update(rest, i - 1, v, key);
    }
}

impl<V> Table<V> {
    /// The value under a key.
    pub open spec fn value(&self, key: Seq<char>) -> Option<V> {
        lookup(self.entries@, key)
    }

    /// No key stands twice.
    pub open spec fn wf(&self) -> bool {
        distinct_keys(self.entries@)
    }

    pub fn new() -> (r: Self)
        ensures
            r.entries@.len() == 0,
            r.wf(),
            forall|k: Seq<char>| #[trigger] r.value(k) is None,
    {
        let entries: Vec<(String, V)> = Vec::new();
        Table { entries }
    }

    /// The first position of a key; the number of entries where there is none.
    fn position(&self, key: &str) -> (r: usize)
        ensures
            r <= self.entries@.len(),
            forall|j: int| 0 <= j < r ==> (#[trigger] self.entries@[j]).0@ != key@,
            r < self.entries@.len() ==> self.entries@[r as int].0@ == key@ && self.value(key@)
                == Some(self.entries@[r as int].1),
            r == self.entries@.len() ==> self.value(key@) is None,
    {
        let mut i: usize = 0;
        while i < self.entries.len()
            invariant
                i <= self.entries@.len(),
                forall|j: int| 0 <= j < i ==> (#[trigger] self.entries@[j]).0@ != key@,
            decreases self.entries@.len() - i,
        {
            if text::same(&self.entries[i].0, key) {
                proof {
                    lemma_lookup_at(self.entries@, key@, i as int);
                }
                return i;
            }
            i += 1;
        }
        proof {
            lemma_lookup_at(self.entries@, key@, i as int);
        }
        i
    }

    pub fn get(&self, key: &str) -> (r: Option<&V>)
        ensures
            r is Some <==> self.value(key@) is Some,
            r matches Some(v) ==> self.value(key@) == Some(*v),
    {
        let i: usize = self.position(key);
        if i < self.entries.len() {
            Some(&self.entries[i].1)
        } else {
            None
        }
    }

    pub fn contains_key(&self, key: &str) -> (r: bool)
        ensures
            r == (self.value(key@) is Some),
    {
        self.position(key) < self.entries.len()
    }

    /// Enters a value, in place of the one that the key had.
    pub fn insert(&mut self, key: String, v: V)
        ensures
            forall|k: Seq<char>|
                #[trigger] final(self).value(k) == if k == key@ {
                    Some(v)
                } else {
                    old(self).value(k)
                },
            old(self).wf() ==> final(self).wf(),
            old(self).value(key@) is Some ==> final(self).entries@.len() == old(self).entries@.len(),
            old(self).value(key@) is None ==> final(self).entries@ == old(self).entries@.push((key, v)),
    {
        let i: usize = self.position(&key);
        if i < self.entries.len() {
            let ghost before = self.entries@;
            let k = self.entries[i].0.clone();
            self.entries.set(i, (k, v));
            proof {
                assert forall|x: Seq<char>|
                    #[trigger] lookup(self.entries@, x) == if x == key@ {
                        Some(v)
                    } else {
                        lookup(before, x)
                    } by {
                    lemma_lookup_update(before, i as int, v, x);
                }
            }
        } else {
            let ghost before = self.entries@;
            let ghost kv = key@;
            self.entries.push((key, v));
            proof {
                assert forall|x: Seq<char>|
                    #[trigger] lookup(self.entries@, x) == if x == kv {
                        Some(v)
                    } else {
                        lookup(before, x)
                    } by {
                    lemma_lookup_push(before, (key, v), x);
                }
            }
        }
    }

    /// Takes a key out of the table.
    pub fn remove(&mut self, key: &str) -> (r: Option<V>)
        requires
            old(self).wf(),
        ensures
            r == old(self).value(key@),
            forall|k: Seq<char>|
                #[trigger] final(self).value(k) == if k == key@ {
                    None
                } else {
                    old(self).value(k)
                },
            final(self).wf(),
            r is Some ==> final(self).entries@.len() == old(self).entries@.len() - 1,
            r is None ==> final(self).entries@ == old(self).entries@,
    {
        let i: usize = self.position(key);
        if i < self.entries.len() {
            let ghost before = self.entries@;
            let (_, v) = self.entries.remove(i);
            proof {
                assert forall|x: Seq<char>|
                    #[trigger] lookup(self.entries@, x) == if x == key@ {
                        None
                    } else {
                        lookup(before, x)
                    } by {
                    lemma_lookup_remove(before, i as int, x);
                }
            }
            Some(v)
        } else {
            None
        }
    }

    /// The keys, in their order.
    pub fn keys(&self) -> (r: Vec<String>)
        ensures
            r@ == self.entries@.map_values(|e: (String, V)| e.0),
    {
        let mut r: Vec<String> = Vec::new();
        let mut i: usize = 0;
        let ghost all = self.entries@.map_values(|e: (String, V)| e.0);
        while i < self.entries.len()
            invariant
                i <= self.entries@.len(),
                all == self.entries@.map_values(|e: (String, V)| e.0),
                r@ == all.subrange(0, i as int),
            decreases self.entries@.len() - i,
        {
            r.push(self.entries[i].0.clone());
            i += 1;
        }
        r
    }
}

proof fn lemma_lookup_remove<V>(entries: Seq<(String, V)>, i: int, key: Seq<char>)
    requires
        distinct_keys(entries),
        0 <= i < entries.len(),
    ensures
        lookup(entries.remove(i), key) == if key == entries[i].0@ {
            None
        } else {
            lookup(entries, key)
        },
    decreases entries.len(),
{
    let after = entries.remove(i);
    let rest = entries.drop_first();
    if i == 0 {
        assert(after =~= rest);
        if key == entries[0].0@ {
            lookup_finds(rest, key);
            if lookup(rest, key) is Some {
                let k = choose|k: int| 0 <= k < rest.len() && (#[trigger] rest[k]).0@ == key;
                assert(entries[k + 1].0@ == key);
            }
        }
    } else {
        assert(forall|j: int| 0 <= j < rest.len() ==> #[trigger] rest[j] == entries[j + 1]);
        assert(after.drop_first() =~= rest.remove(i - 1));
        assert(after[0] == entries[0]);
        lemma_lookup_remove(rest, i - 1, key);
    }
}

/// The value of the last entry with a key.
pub open spec fn last_value<V>(entries: Seq<(String, V)>, key: Seq<char>) -> Option<V>
    decreases entries.len(),
{
    if entries.len() == 0 {
        None
    } else if entries.last().0@ == key {
        Some(entries.last().1)
    } else {
        last_value(entries.drop_last(), key)
    }
}

/// The keys of the entries.
pub open spec fn key_set<V>(entries: Seq<(String, V)>) -> Set<Seq<char>> {
    entries.map_values(|e: (String, V)| e.0@).to_set()
}

/// A key is among those of the entries exactly where it has a value.
pub proof fn keys_have_values<V>(entries: Seq<(String, V)>, key: Seq<char>)
    ensures
        key_set(entries).contains(key) <==> last_value(entries, key) is Some,
        key_set(entries).contains(key) <==> lookup(entries, key) is Some,
    decreases entries.len(),
{
    let names = entries.map_values(|e: (String, V)| e.0@);
    lookup_finds(entries, key);
    if lookup(entries, key) is Some {
        let i = choose|i: int|
            0 <= i < entries.len() && (#[trigger] entries[i]).0@ == key && entries[i].1 == lookup(
                entries,
                key,
            )->0;
        assert(names[i] == key);
    }
    if names.contains(key) {
        let i = choose|i: int| 0 <= i < names.len() && names[i] == key;
        assert(entries[i].0@ == key);
    }
    if entries.len() > 0 {
        let rest = entries.drop_last();
        keys_have_values(rest, key);
        let rest_names = rest.map_values(|e: (String, V)| e.0@);
        assert(names =~= rest_names.push(entries.last().0@));
        if rest_names.contains(key) {
            let i = choose|i: int| 0 <= i < rest_names.len() && rest_names[i] == key;
            assert(names[i] == key);
        }
        if entries.last().0@ == key {
            assert(names[names.len() - 1] == key);
        } else if names.contains(key) {
            let i = choose|i: int| 0 <= i < names.len() && names[i] == key;
            assert(rest_names[i] == key);
        }
    }
}

/// A table has as many entries as keys.
pub proof fn table_has_as_many_entries_as_keys<V>(entries: Seq<(String, V)>)
    requires
        distinct_keys(entries),
    ensures
        key_set(entries).len() == entries.len(),
{
    let names = entries.map_values(|e: (String, V)| e.0@);
    assert forall|i: int, j: int| 0 <= i < names.len() && 0 <= j < names.len() && i != j implies names[i]
        != names[j] by {
        if i < j {
            assert(entries[i].0@ != entries[j].0@);
        } else {
            assert(entries[j].0@ != entries[i].0@);
        }
    }
    names.unique_seq_to_set();
}

/// The last value of a key in two lists of entries, one after the other.
pub proof fn last_value_of_two<V>(a: Seq<(String, V)>, b: Seq<(String, V)>, key: Seq<char>)
    ensures
        last_value(a + b, key) == (match last_value(b, key) {
            Some(v) => Some(v),
            None => last_value(a, key),
        }),
    decreases b.len(),
{
    if b.len() == 0 {
        assert(a + b =~= a);
    } else {
        assert((a + b).drop_last() =~= a + b.drop_last());
        assert((a + b).last() == b.last());
        last_value_of_two(a, b.drop_last(), key);
    }
}

impl<V> Table<V> {
    /// Enters values one by one.
    pub fn insert_all(&mut self, entries: Vec<(String, V)>)
        ensures
            forall|k: Seq<char>| #[trigger]
                final(self).value(k) == (match last_value(entries@, k) {
                    Some(v) => Some(v),
                    None => old(self).value(k),
                }),
            old(self).wf() ==> final(self).wf(),
    {
        let ghost all = entries@;
        let mut entries = entries;
        let ghost mut i: int = 0;
        assert(all.subrange(0, 0) =~= Seq::empty());
        assert(all.subrange(0, all.len() as int) =~= all);
        while entries.len() > 0
            invariant
                0 <= i <= all.len(),
                entries@ == all.subrange(i, all.len() as int),
                forall|k: Seq<char>| #[trigger]
                    self.value(k) == (match last_value(all.subrange(0, i), k) {
                        Some(v) => Some(v),
                        None => old(self).value(k),
                    }),
                old(self).wf() ==> self.wf(),
            decreases entries@.len(),
        {
            let (key, v) = entries.remove(0);
            proof {
                assert((key, v) == all[i]);
                assert(all.subrange(0, i + 1).drop_last() =~= all.subrange(0, i));
                assert(all.subrange(0, i + 1).last() == all[i]);
                i = i + 1;
                assert(entries@ =~= all.subrange(i, all.len() as int));
            }
            self.insert(key, v);
        }
        assert(all.subrange(0, i) =~= all);
    }
}

/// Of several values under one key a list gives the last, and a look from the front the
/// first; both are the one value of a list with one entry.
pub proof fn first_and_last_values<V>(entries: Seq<(String, V)>, key: String, v: V, other: Seq<char>)
    ensures
        last_value(entries.push((key, v)), key@) == Some(v),
        other != key@ ==> last_value(entries.push((key, v)), other) == last_value(entries, other),
        lookup(seq![(key, v)] + entries, key@) == Some(v),
        other != key@ ==> lookup(seq![(key, v)] + entries, other) == lookup(entries, other),
        lookup(Seq::<(String, V)>::empty(), other) is None,
        last_value(Seq::<(String, V)>::empty(), other) is None,
{
    assert(entries.push((key, v)).drop_last() =~= entries);
    assert((seq![(key, v)] + entries).drop_first() =~= entries);
}

} // verus!
