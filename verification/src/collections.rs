//! A small map keyed by text, kept as a vector of entries.
//!
//! The engine's tables (positions by symbol, pending orders by order id,
//! per-symbol histories, report counters) are all keyed by short strings
//! and hold a handful of entries, so a linear scan is enough. The view is a
//! `Map` from the key's characters to the value.
//!
//! A standard `HashMap` would not do here: vstd specifies it only for keys
//! whose hashing it knows to follow equality (`obeys_key_model`, stated for
//! integers and `bool`), and says nothing of a map keyed by `String`. This
//! map promises what those tables need, and every promise is proved.

use vstd::prelude::*;
use crate::text::str_eq;

verus! {

/// A map from text keys to values, with no key held twice.
pub struct TextMap<V> {
    entries: Vec<(String, V)>,
}

/// No two entries share a key.
pub open spec fn distinct_keys<V>(entries: Seq<(String, V)>) -> bool {
    forall|i: int, j: int|
        0 <= i < j < entries.len() ==> (#[trigger] entries[i]).0@ != (#[trigger] entries[j]).0@
}

/// The slot of `entries` that holds `key`, or -1 where none does.
pub open spec fn slot_in<V>(entries: Seq<(String, V)>, key: Seq<char>) -> int {
    if exists|i: int| 0 <= i < entries.len() && (#[trigger] entries[i]).0@ == key {
        choose|i: int| 0 <= i < entries.len() && (#[trigger] entries[i]).0@ == key
    } else {
        -1
    }
}

/// The map that a list of entries stands for.
pub open spec fn map_of<V>(entries: Seq<(String, V)>) -> Map<Seq<char>, V> {
    Map::new(
        |k: Seq<char>| exists|i: int| 0 <= i < entries.len() && (#[trigger] entries[i]).0@ == k,
        |k: Seq<char>| entries[slot_in(entries, k)].1,
    )
}

/// With distinct keys every slot is an entry of the map.
pub proof fn lemma_slot_is_entry<V>(entries: Seq<(String, V)>, i: int)
    requires
        distinct_keys(entries),
        0 <= i < entries.len(),
    ensures
        map_of(entries).contains_key(entries[i].0@),
        map_of(entries)[entries[i].0@] == entries[i].1,
        slot_in(entries, entries[i].0@) == i,
{
    let k = entries[i].0@;
    let s = slot_in(entries, k);
    assert(0 <= s < entries.len() && entries[s].0@ == k);
    if s < i {
        assert(entries[s].0@ != entries[i].0@);
    } else if i < s {
        assert(entries[i].0@ != entries[s].0@);
    }
}

/// Every entry of the map sits in a slot.
pub proof fn lemma_entry_has_slot<V>(entries: Seq<(String, V)>, k: Seq<char>)
    requires
        map_of(entries).contains_key(k),
    ensures
        0 <= slot_in(entries, k) < entries.len(),
        entries[slot_in(entries, k)].0@ == k,
        map_of(entries)[k] == entries[slot_in(entries, k)].1,
{
}

/// Replacing the value in slot `i` puts the new value under that slot's key.
pub proof fn lemma_map_of_update<V>(entries: Seq<(String, V)>, i: int, key: String, value: V)
    requires
        distinct_keys(entries),
        0 <= i < entries.len(),
        entries[i].0@ == key@,
    ensures
        distinct_keys(entries.update(i, (key, value))),
        map_of(entries.update(i, (key, value))) == map_of(entries).insert(key@, value),
{
    let after = entries.update(i, (key, value));
    assert forall|a: int, b: int| 0 <= a < b < after.len() implies (#[trigger] after[a]).0@ != (
    #[trigger] after[b]).0@ by {
        assert(after[a].0@ == entries[a].0@);
        assert(after[b].0@ == entries[b].0@);
    }
    assert forall|x: Seq<char>| #[trigger] map_of(after).contains_key(x) implies map_of(
        entries,
    ).insert(key@, value).contains_key(x) && map_of(after)[x] == map_of(entries).insert(
        key@,
        value,
    )[x] by {
        let s = slot_in(after, x);
        assert(0 <= s < after.len() && after[s].0@ == x);
        assert(entries[s].0@ == x);
        lemma_slot_is_entry(after, s);
        lemma_slot_is_entry(entries, s);
        if x == key@ {
            lemma_slot_is_entry(entries, i);
        }
    }
    assert forall|x: Seq<char>| map_of(entries).insert(key@, value).contains_key(x) implies #[trigger]
        map_of(after).contains_key(x) by {
        if x == key@ {
            assert(after[i].0@ == x);
        } else {
            let t = slot_in(entries, x);
            assert(after[t].0@ == x);
        }
    }
    assert(map_of(after) =~= map_of(entries).insert(key@, value));
}

/// Appending an entry under a fresh key inserts it.
pub proof fn lemma_map_of_push<V>(entries: Seq<(String, V)>, key: String, value: V)
    requires
        distinct_keys(entries),
        !map_of(entries).contains_key(key@),
    ensures
        distinct_keys(entries.push((key, value))),
        map_of(entries.push((key, value))) == map_of(entries).insert(key@, value),
{
    let after = entries.push((key, value));
    let n = entries.len() as int;
    assert forall|a: int, b: int| 0 <= a < b < after.len() implies (#[trigger] after[a]).0@ != (
    #[trigger] after[b]).0@ by {
        assert(after[a] == entries[a]);
        if b < n {
            assert(after[b] == entries[b]);
        } else {
            assert(entries[a].0@ == entries[a].0@);
            lemma_slot_is_entry(entries, a);
        }
    }
    assert forall|x: Seq<char>| #[trigger] map_of(after).contains_key(x) implies map_of(
        entries,
    ).insert(key@, value).contains_key(x) && map_of(after)[x] == map_of(entries).insert(
        key@,
        value,
    )[x] by {
        let s = slot_in(after, x);
        assert(0 <= s < after.len() && after[s].0@ == x);
        lemma_slot_is_entry(after, s);
        if s < n {
            assert(after[s] == entries[s]);
            lemma_slot_is_entry(entries, s);
        }
    }
    assert forall|x: Seq<char>| map_of(entries).insert(key@, value).contains_key(x) implies #[trigger]
        map_of(after).contains_key(x) by {
        if x == key@ {
            assert(after[n].0@ == x);
        } else {
            let t = slot_in(entries, x);
            assert(after[t] == entries[t]);
            assert(after[t].0@ == x);
        }
    }
    assert(map_of(after) =~= map_of(entries).insert(key@, value));
}

/// Dropping slot `i` removes that slot's key.
pub proof fn lemma_map_of_remove<V>(entries: Seq<(String, V)>, i: int)
    requires
        distinct_keys(entries),
        0 <= i < entries.len(),
    ensures
        distinct_keys(entries.remove(i)),
        map_of(entries.remove(i)) == map_of(entries).remove(entries[i].0@),
{
    let after = entries.remove(i);
    let k = entries[i].0@;
    assert forall|a: int, b: int| 0 <= a < b < after.len() implies (#[trigger] after[a]).0@ != (
    #[trigger] after[b]).0@ by {
        let a0 = if a < i {
            a
        } else {
            a + 1
        };
        let b0 = if b < i {
            b
        } else {
            b + 1
        };
        assert(after[a] == entries[a0]);
        assert(after[b] == entries[b0]);
    }
    assert forall|x: Seq<char>| #[trigger] map_of(after).contains_key(x) implies map_of(
        entries,
    ).remove(k).contains_key(x) && map_of(after)[x] == map_of(entries).remove(k)[x] by {
        let s = slot_in(after, x);
        assert(0 <= s < after.len() && after[s].0@ == x);
        let s0 = if s < i {
            s
        } else {
            s + 1
        };
        assert(after[s] == entries[s0]);
        lemma_slot_is_entry(after, s);
        lemma_slot_is_entry(entries, s0);
        lemma_slot_is_entry(entries, i);
    }
    assert forall|x: Seq<char>| map_of(entries).remove(k).contains_key(x) implies #[trigger] map_of(
        after,
    ).contains_key(x) by {
        let t = slot_in(entries, x);
        assert(0 <= t < entries.len() && entries[t].0@ == x);
        assert(t != i);
        let t1 = if t < i {
            t
        } else {
            t - 1
        };
        assert(after[t1] == entries[t]);
        assert(after[t1].0@ == x);
    }
    assert(map_of(after) =~= map_of(entries).remove(k));
}

/// A map listed without repeats has as many keys as the list has entries.
pub proof fn lemma_map_of_len<V>(entries: Seq<(String, V)>)
    requires
        distinct_keys(entries),
    ensures
        map_of(entries).dom().finite(),
        map_of(entries).dom().len() == entries.len(),
    decreases entries.len(),
{
    if entries.len() == 0 {
        assert(map_of(entries).dom() =~= Set::<Seq<char>>::empty());
    } else {
        let n = entries.len() - 1;
        let rest = entries.remove(n);
        lemma_map_of_remove(entries, n);
        lemma_map_of_len(rest);
        lemma_slot_is_entry(entries, n);
        assert(map_of(entries).dom() =~= map_of(rest).dom().insert(entries[n].0@));
    }
}

impl<V> TextMap<V> {
    #[verifier::type_invariant]
    spec fn inv(self) -> bool {
        distinct_keys(self.entries@)
    }

    /// The entries in slot order.
    pub closed spec fn slots(&self) -> Seq<(String, V)> {
        self.entries@
    }

    /// The map this table stands for.
    pub closed spec fn view(&self) -> Map<Seq<char>, V> {
        map_of(self.entries@)
    }

    /// An empty table.
    pub fn new() -> (m: Self)
        ensures
            m@ == Map::<Seq<char>, V>::empty(),
            m.slots().len() == 0,
    {
        let m = TextMap { entries: Vec::new() };
        assert(m@ =~= Map::<Seq<char>, V>::empty());
        m
    }

    /// Number of entries. The slots list the map without repeats.
    pub fn len(&self) -> (n: usize)
        ensures
            n == self.slots().len(),
            n == self@.dom().len(),
            self@.dom().finite(),
            self@ == map_of(self.slots()),
            distinct_keys(self.slots()),
    {
        proof {
            use_type_invariant(self);
            lemma_map_of_len(self.entries@);
        }
        self.entries.len()
    }

    /// The slot that holds `key`.
    pub fn slot_of(&self, key: &str) -> (r: Option<usize>)
        ensures
            self@ == map_of(self.slots()),
            distinct_keys(self.slots()),
            match r {
                Some(i) => i < self.slots().len() && self.slots()[i as int].0@ == key@
                    && self@.contains_key(key@) && self@[key@] == self.slots()[i as int].1,
                None => !self@.contains_key(key@),
            },
    {
        proof {
            use_type_invariant(self);
        }
        let mut i: usize = 0;
        while i < self.entries.len()
            invariant
                i <= self.entries.len(),
                distinct_keys(self.entries@),
                forall|j: int| 0 <= j < i ==> (#[trigger] self.entries[j]).0@ != key@,
            decreases self.entries.len() - i,
        {
            if str_eq(self.entries[i].0.as_str(), key) {
                proof {
                    lemma_slot_is_entry(self.entries@, i as int);
                }
                return Some(i);
            }
            i = i + 1;
        }
        None
    }

    /// Whether `key` has an entry.
    pub fn contains_key(&self, key: &str) -> (r: bool)
        ensures
            r == self@.contains_key(key@),
    {
        self.slot_of(key).is_some()
    }

    /// The value under `key`.
    pub fn get(&self, key: &str) -> (r: Option<&V>)
        ensures
            match r {
                Some(v) => self@.contains_key(key@) && *v == self@[key@],
                None => !self@.contains_key(key@),
            },
    {
        match self.slot_of(key) {
            Some(i) => Some(&self.entries[i].1),
            None => None,
        }
    }

    /// The key in slot `i`.
    pub fn key_at(&self, i: usize) -> (k: &String)
        requires
            i < self.slots().len(),
        ensures
            *k == self.slots()[i as int].0,
            self@.contains_key(k@),
    {
        proof {
            use_type_invariant(self);
            lemma_slot_is_entry(self.entries@, i as int);
        }
        &self.entries[i].0
    }

    /// The value in slot `i`.
    pub fn value_at(&self, i: usize) -> (v: &V)
        requires
            i < self.slots().len(),
        ensures
            *v == self.slots()[i as int].1,
            self@.contains_key(self.slots()[i as int].0@),
            *v == self@[self.slots()[i as int].0@],
    {
        proof {
            use_type_invariant(self);
            lemma_slot_is_entry(self.entries@, i as int);
        }
        &self.entries[i].1
    }

    /// Puts `value` under `key`, handing back what was there before.
    pub fn insert(&mut self, key: String, value: V) -> (previous: Option<V>)
        ensures
            final(self)@ == old(self)@.insert(key@, value),
            match previous {
                Some(p) => old(self)@.contains_key(key@) && p == old(self)@[key@],
                None => !old(self)@.contains_key(key@),
            },
    {
        proof {
            use_type_invariant(&*self);
        }
        let found: Option<usize> = self.slot_of(key.as_str());
        let mut entries: Vec<(String, V)> = Vec::new();
        let ghost before = self.entries@;
        core::mem::swap(&mut self.entries, &mut entries);
        assert(entries@ == before);
        match found {
            Some(i) => {
                proof {
                    lemma_map_of_update(before, i as int, key, value);
                }
                entries.push((key, value));
                let prev: (String, V) = entries.swap_remove(i);
                assert(entries@ =~= before.update(i as int, (key, value)));
                self.entries = entries;
                Some(prev.1)
            },
            None => {
                proof {
                    lemma_map_of_push(before, key, value);
                }
                entries.push((key, value));
                self.entries = entries;
                None
            },
        }
    }

    /// Takes the entry under `key` out of the table.
    pub fn remove(&mut self, key: &str) -> (removed: Option<V>)
        ensures
            final(self)@ == old(self)@.remove(key@),
            match removed {
                Some(p) => old(self)@.contains_key(key@) && p == old(self)@[key@],
                None => !old(self)@.contains_key(key@),
            },
    {
        proof {
            use_type_invariant(&*self);
        }
        let found: Option<usize> = self.slot_of(key);
        match found {
            Some(i) => {
                let mut entries: Vec<(String, V)> = Vec::new();
                let ghost before = self.entries@;
                core::mem::swap(&mut self.entries, &mut entries);
                proof {
                    lemma_map_of_remove(before, i as int);
                }
                let gone: (String, V) = entries.remove(i);
                self.entries = entries;
                Some(gone.1)
            },
            None => {
                assert(self@ =~= old(self)@.remove(key@));
                None
            },
        }
    }
}

} // verus!
