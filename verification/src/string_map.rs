//! A map keyed by strings, kept in insertion order: each key occurs at most
//! once, inserting an existing key replaces its value in place, and new keys
//! go to the end.

use vstd::prelude::*;
use crate::text::str_eq;

verus! {

/// No key occurs twice.
pub open spec fn keys_unique<V>(s: Seq<(Seq<char>, V)>) -> bool {
    forall|i: int, j: int| 0 <= i < j < s.len() ==> s[i].0 != s[j].0
}

/// `k` is a key of `s`.
pub open spec fn has_key<V>(s: Seq<(Seq<char>, V)>, k: Seq<char>) -> bool {
    exists|i: int| 0 <= i < s.len() && s[i].0 == k
}

/// The position of key `k` in `s` (meaningful when `has_key(s, k)`).
pub open spec fn key_index<V>(s: Seq<(Seq<char>, V)>, k: Seq<char>) -> int {
    choose|i: int| 0 <= i < s.len() && s[i].0 == k
}

/// The value stored under `k`, if any.
pub open spec fn lookup<V>(s: Seq<(Seq<char>, V)>, k: Seq<char>) -> Option<V> {
    if has_key(s, k) {
        Some(s[key_index(s, k)].1)
    } else {
        None
    }
}

/// `s` after inserting `v` under `k`: an existing entry is replaced in place,
/// a new key is appended.
pub open spec fn insert_entry<V>(s: Seq<(Seq<char>, V)>, k: Seq<char>, v: V) -> Seq<(Seq<char>, V)> {
    if has_key(s, k) {
        s.update(key_index(s, k), (k, v))
    } else {
        s.push((k, v))
    }
}

/// `s` without the entry for `k` (unchanged when there is none).
pub open spec fn remove_entry<V>(s: Seq<(Seq<char>, V)>, k: Seq<char>) -> Seq<(Seq<char>, V)> {
    if has_key(s, k) {
        s.remove(key_index(s, k))
    } else {
        s
    }
}

/// In a sequence with unique keys, the entry at `i` is the one for its key.
pub proof fn lemma_key_index_unique<V>(s: Seq<(Seq<char>, V)>, i: int)
    requires
        keys_unique(s),
        0 <= i < s.len(),
    ensures
        has_key(s, s[i].0),
        key_index(s, s[i].0) == i,
{
    let k = s[i].0;
    assert(has_key(s, k));
    let j = key_index(s, k);
    if j < i {
        assert(s[j].0 != s[i].0);
    } else if i < j {
        assert(s[i].0 != s[j].0);
    }
}

/// Inserting keeps keys unique.
pub proof fn lemma_insert_unique<V>(s: Seq<(Seq<char>, V)>, k: Seq<char>, v: V)
    requires
        keys_unique(s),
    ensures
        keys_unique(insert_entry(s, k, v)),
        has_key(insert_entry(s, k, v), k),
        lookup(insert_entry(s, k, v), k) == Some(v),
{
    let r = insert_entry(s, k, v);
    if has_key(s, k) {
        let i = key_index(s, k);
        assert forall|a: int, b: int| 0 <= a < b < r.len() implies r[a].0 != r[b].0 by {
            if a == i {
                assert(s[i].0 == k);
            } else if b == i {
                assert(s[i].0 == k);
            }
        }
        lemma_key_index_unique(r, i);
    } else {
        assert forall|a: int, b: int| 0 <= a < b < r.len() implies r[a].0 != r[b].0 by {
            if b == s.len() {
                if r[a].0 == k {
                    assert(s[a].0 == k);
                }
            }
        }
        lemma_key_index_unique(r, s.len() as int);
    }
}

/// Removing keeps keys unique and takes the key out.
pub proof fn lemma_remove_unique<V>(s: Seq<(Seq<char>, V)>, k: Seq<char>)
    requires
        keys_unique(s),
    ensures
        keys_unique(remove_entry(s, k)),
        !has_key(remove_entry(s, k), k),
{
    let r = remove_entry(s, k);
    if has_key(s, k) {
        let i = key_index(s, k);
        assert forall|a: int, b: int| 0 <= a < b < r.len() implies r[a].0 != r[b].0 by {
            if a < i {
                if b < i {
                } else {
                    assert(r[b] == s[b + 1]);
                }
            } else {
                assert(r[a] == s[a + 1]);
                assert(r[b] == s[b + 1]);
            }
        }
        if has_key(r, k) {
            let j = choose|j: int| 0 <= j < r.len() && r[j].0 == k;
            if j < i {
                assert(s[j].0 == k);
                assert(s[j].0 != s[i].0);
            } else {
                assert(s[j + 1].0 == k);
                assert(s[i].0 != s[j + 1].0);
            }
        }
    }
}

/// Looking up another key is not affected by a removal.
pub proof fn lemma_lookup_remove_other<V>(s: Seq<(Seq<char>, V)>, k: Seq<char>, other: Seq<char>)
    requires
        keys_unique(s),
    ensures
        other != k ==> lookup(remove_entry(s, k), other) == lookup(s, other),
{
    if other != k && has_key(s, k) {
        let r = remove_entry(s, k);
        let i = key_index(s, k);
        lemma_remove_unique(s, k);
        if has_key(s, other) {
            let j = key_index(s, other);
            lemma_key_index_unique(s, j);
            let jj = if j < i { j } else { j - 1 };
            assert(r[jj] == s[j]);
            lemma_key_index_unique(r, jj);
        } else if has_key(r, other) {
            let j = key_index(r, other);
            if j < i {
                assert(s[j].0 == other);
            } else {
                assert(s[j + 1].0 == other);
            }
        }
    }
}

/// The entries with each value taken through `f`.
pub open spec fn map_entries<V, W>(s: Seq<(Seq<char>, V)>, f: spec_fn(V) -> W) -> Seq<(Seq<char>, W)> {
    s.map_values(|e: (Seq<char>, V)| (e.0, f(e.1)))
}

/// Taking the values through a function keeps the keys, so keeps them
/// unique and keeps where each key is.
pub proof fn lemma_map_entries_keys<V, W>(s: Seq<(Seq<char>, V)>, f: spec_fn(V) -> W, k: Seq<char>)
    requires
        keys_unique(s),
    ensures
        keys_unique(map_entries(s, f)),
        has_key(map_entries(s, f), k) == has_key(s, k),
        has_key(s, k) ==> key_index(map_entries(s, f), k) == key_index(s, k),
{
    let t = map_entries(s, f);
    assert(forall|i: int| 0 <= i < s.len() ==> #[trigger] t[i].0 == s[i].0);
    assert forall|a: int, b: int| 0 <= a < b < t.len() implies t[a].0 != t[b].0 by {
        assert(t[a].0 == s[a].0);
        assert(t[b].0 == s[b].0);
    }
    if has_key(s, k) {
        let i = key_index(s, k);
        lemma_key_index_unique(s, i);
        assert(t[i].0 == k);
        lemma_key_index_unique(t, i);
    } else if has_key(t, k) {
        let j = key_index(t, k);
        assert(s[j].0 == k);
    }
}

/// Looking up among mapped values is mapping the value found.
pub proof fn lemma_map_entries_lookup<V, W>(s: Seq<(Seq<char>, V)>, f: spec_fn(V) -> W, k: Seq<char>)
    requires
        keys_unique(s),
    ensures
        lookup(map_entries(s, f), k) == match lookup(s, k) {
            Some(v) => Some(f(v)),
            None => None::<W>,
        },
{
    lemma_map_entries_keys(s, f, k);
}

/// Inserting then mapping is mapping then inserting.
pub proof fn lemma_map_entries_insert<V, W>(s: Seq<(Seq<char>, V)>, f: spec_fn(V) -> W, k: Seq<char>, v: V)
    requires
        keys_unique(s),
    ensures
        map_entries(insert_entry(s, k, v), f) == insert_entry(map_entries(s, f), k, f(v)),
{
    lemma_map_entries_keys(s, f, k);
    assert(map_entries(insert_entry(s, k, v), f) =~= insert_entry(map_entries(s, f), k, f(v)));
}

/// Removing then mapping is mapping then removing.
pub proof fn lemma_map_entries_remove<V, W>(s: Seq<(Seq<char>, V)>, f: spec_fn(V) -> W, k: Seq<char>)
    requires
        keys_unique(s),
    ensures
        map_entries(remove_entry(s, k), f) == remove_entry(map_entries(s, f), k),
{
    lemma_map_entries_keys(s, f, k);
    assert(map_entries(remove_entry(s, k), f) =~= remove_entry(map_entries(s, f), k));
}

/// Swapping a placeholder in under a key and then inserting under that key
/// is inserting under it.
pub proof fn lemma_swap_then_insert<V>(s: Seq<(Seq<char>, V)>, k: Seq<char>, a: V, b: V)
    requires
        keys_unique(s),
        has_key(s, k),
    ensures
        insert_entry(s.update(key_index(s, k), (k, a)), k, b) == insert_entry(s, k, b),
{
    let i = key_index(s, k);
    lemma_key_index_unique(s, i);
    let s1 = s.update(i, (k, a));
    assert(keys_unique(s1)) by {
        assert forall|x: int, y: int| 0 <= x < y < s1.len() implies s1[x].0 != s1[y].0 by {
            assert(s1[x].0 == s[x].0);
            assert(s1[y].0 == s[y].0);
        }
    }
    lemma_key_index_unique(s1, i);
    assert(insert_entry(s1, k, b) =~= insert_entry(s, k, b));
}

/// A map from strings to values; each key occurs once and entries keep their
/// insertion order.
#[derive(Debug)]
pub struct StringMap<V> {
    entries: Vec<(String, V)>,
}

impl<V> StringMap<V> {
    /// The entries, keys taken as character sequences.
    pub closed spec fn view(&self) -> Seq<(Seq<char>, V)> {
        self.entries@.map_values(|e: (String, V)| (e.0@, e.1))
    }

    #[verifier::type_invariant]
    closed spec fn unique_keys(&self) -> bool {
        keys_unique(self.view())
    }

    /// Every map's entries have unique keys.
    pub fn check_unique(&self)
        ensures
            keys_unique(self.view()),
    {
        proof {
            use_type_invariant(self);
        }
    }

    /// An empty map.
    pub fn new() -> (r: Self)
        ensures
            r.view() == Seq::<(Seq<char>, V)>::empty(),
    {
        let r = StringMap { entries: Vec::new() };
        assert(r.view() =~= Seq::<(Seq<char>, V)>::empty());
        r
    }

    /// The number of entries.
    pub fn len(&self) -> (r: usize)
        ensures
            r == self.view().len(),
    {
        self.entries.len()
    }

    /// Whether the map has no entry.
    pub fn is_empty(&self) -> (r: bool)
        ensures
            r == (self.view().len() == 0),
    {
        self.entries.len() == 0
    }

    /// The position of `key`, if present.
    fn find(&self, key: &str) -> (r: Option<usize>)
        ensures
            r matches Some(i) ==> i < self.view().len() && i == key_index(self.view(), key@)
                && self.view()[i as int].0 == key@,
            r is None <==> !has_key(self.view(), key@),
    {
        proof {
            use_type_invariant(self);
        }
        let mut i: usize = 0;
        while i < self.entries.len()
            invariant
                i <= self.entries.len(),
                self.view().len() == self.entries.len(),
                keys_unique(self.view()),
                forall|j: int| 0 <= j < i ==> self.view()[j].0 != key@,
            decreases self.entries.len() - i,
        {
            if str_eq(self.entries[i].0.as_str(), key) {
                proof {
                    lemma_key_index_unique(self.view(), i as int);
                }
                return Some(i);
            }
            i = i + 1;
        }
        None
    }

    /// Whether `key` has an entry.
    pub fn contains_key(&self, key: &str) -> (r: bool)
        ensures
            r == has_key(self.view(), key@),
    {
        self.find(key).is_some()
    }

    /// The value stored under `key`, if any.
    pub fn get(&self, key: &str) -> (r: Option<&V>)
        ensures
            r matches Some(v) ==> lookup(self.view(), key@) == Some(*v),
            r is None ==> lookup(self.view(), key@) is None,
    {
        match self.find(key) {
            Some(i) => Some(&self.entries[i].1),
            None => None,
        }
    }

    /// The key and value at position `i`.
    pub fn entry_at(&self, i: usize) -> (r: (&String, &V))
        requires
            i < self.view().len(),
        ensures
            r.0@ == self.view()[i as int].0,
            *r.1 == self.view()[i as int].1,
    {
        (&self.entries[i].0, &self.entries[i].1)
    }

    /// Stores `value` under `key`, replacing the value already there.
    pub fn insert(&mut self, key: String, value: V)
        ensures
            final(self).view() == insert_entry(old(self).view(), key@, value),
    {
        proof {
            use_type_invariant(&*self);
            lemma_insert_unique(self.view(), key@, value);
        }
        let pos = self.find(key.as_str());
        let mut entries: Vec<(String, V)> = Vec::new();
        std::mem::swap(&mut entries, &mut self.entries);
        let ghost before = entries@;
        match pos {
            Some(i) => {
                let _ = entries.remove(i);
                entries.insert(i, (key, value));
            },
            None => {
                entries.push((key, value));
            },
        }
        proof {
            let target = insert_entry(before.map_values(|e: (String, V)| (e.0@, e.1)), key@, value);
            assert(entries@.map_values(|e: (String, V)| (e.0@, e.1)) =~= target);
        }
        self.entries = entries;
    }

    /// Removes the entry for `key` and returns its value, if there was one.
    pub fn remove(&mut self, key: &str) -> (r: Option<V>)
        ensures
            final(self).view() == remove_entry(old(self).view(), key@),
            r == lookup(old(self).view(), key@),
    {
        proof {
            use_type_invariant(&*self);
            lemma_remove_unique(self.view(), key@);
        }
        let pos = self.find(key);
        match pos {
            Some(i) => {
                let mut entries: Vec<(String, V)> = Vec::new();
                std::mem::swap(&mut entries, &mut self.entries);
                let ghost before = entries@;
                let (_, v) = entries.remove(i);
                proof {
                    let target = remove_entry(before.map_values(|e: (String, V)| (e.0@, e.1)), key@);
                    assert(entries@.map_values(|e: (String, V)| (e.0@, e.1)) =~= target);
                }
                self.entries = entries;
                Some(v)
            },
            None => None,
        }
    }

    /// Puts `value` in place of the value stored under `key` and returns the
    /// value that was there; without an entry for `key` nothing changes and
    /// `None` is returned.
    pub fn swap_value(&mut self, key: &str, value: V) -> (r: Option<V>)
        ensures
            has_key(old(self).view(), key@) ==> final(self).view() == old(self).view().update(
                key_index(old(self).view(), key@),
                (key@, value),
            ) && r == Some(old(self).view()[key_index(old(self).view(), key@)].1),
            !has_key(old(self).view(), key@) ==> final(self).view() == old(self).view() && r is None,
    {
        proof {
            use_type_invariant(&*self);
        }
        let pos = self.find(key);
        match pos {
            Some(i) => {
                let mut entries: Vec<(String, V)> = Vec::new();
                std::mem::swap(&mut entries, &mut self.entries);
                let ghost before = entries@;
                let (k, old_value) = entries.remove(i);
                entries.insert(i, (k, value));
                proof {
                    let bv = before.map_values(|e: (String, V)| (e.0@, e.1));
                    let target = bv.update(i as int, (key@, value));
                    assert(entries@.map_values(|e: (String, V)| (e.0@, e.1)) =~= target);
                    assert forall|a: int, b: int| 0 <= a < b < target.len() implies target[a].0 != target[b].0 by {
                        assert(target[a].0 == bv[a].0);
                        assert(target[b].0 == bv[b].0);
                    }
                }
                self.entries = entries;
                Some(old_value)
            },
            None => None,
        }
    }

    /// The keys, in entry order.
    pub fn keys(&self) -> (r: Vec<String>)
        ensures
            r@.len() == self.view().len(),
            forall|i: int| 0 <= i < r@.len() ==> r@[i]@ == self.view()[i].0,
    {
        let mut out: Vec<String> = Vec::new();
        let mut i: usize = 0;
        while i < self.entries.len()
            invariant
                i <= self.entries.len(),
                self.view().len() == self.entries.len(),
                out@.len() == i,
                forall|j: int| 0 <= j < i ==> out@[j]@ == self.view()[j].0,
            decreases self.entries.len() - i,
        {
            out.push(self.entries[i].0.clone());
            i = i + 1;
        }
        out
    }
}

impl<V: Clone> Clone for StringMap<V> {
    /// A copy with the same keys in the same order; each value is a clone of
    /// the value it copies.
    fn clone(&self) -> (r: Self)
        ensures
            r.view().len() == self.view().len(),
            forall|i: int| 0 <= i < r.view().len() ==> r.view()[i].0 == self.view()[i].0
                && cloned::<V>(self.view()[i].1, r.view()[i].1),
    {
        proof {
            use_type_invariant(self);
        }
        let mut entries: Vec<(String, V)> = Vec::new();
        let mut i: usize = 0;
        while i < self.entries.len()
            invariant
                i <= self.entries.len(),
                self.view().len() == self.entries.len(),
                keys_unique(self.view()),
                entries@.len() == i,
                forall|j: int| 0 <= j < i ==> entries@[j].0@ == self.view()[j].0
                    && cloned::<V>(self.view()[j].1, entries@[j].1),
            decreases self.entries.len() - i,
        {
            let k = self.entries[i].0.clone();
            let v = self.entries[i].1.clone();
            entries.push((k, v));
            i = i + 1;
        }
        proof {
            let w = entries@.map_values(|e: (String, V)| (e.0@, e.1));
            assert forall|a: int, b: int| 0 <= a < b < w.len() implies w[a].0 != w[b].0 by {
                assert(w[a].0 == self.view()[a].0);
                assert(w[b].0 == self.view()[b].0);
            }
        }
        StringMap { entries }
    }
}

} // verus!
