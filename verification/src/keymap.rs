//! A map with keys of any type that can be compared, kept as a list of entries.

use crate::key::Key;
use vstd::prelude::*;

verus! {

/// A map from keys to values. No key occurs twice.
#[derive(Debug)]
pub struct KeyMap<K, V> {
    entries: Vec<(K, V)>,
}

/// The map that a list of entries stands for, later entries winning.
pub open spec fn entries_map<K, V>(entries: Seq<(K, V)>) -> Map<K, V>
    decreases entries.len(),
{
    if entries.len() == 0 {
        Map::empty()
    } else {
        entries_map(entries.drop_last()).insert(entries.last().0, entries.last().1)
    }
}

/// No key occurs in two entries.
pub open spec fn unique_keys<K, V>(entries: Seq<(K, V)>) -> bool {
    forall|i: int, j: int|
        0 <= i < j < entries.len() ==> (#[trigger] entries[i]).0 != (#[trigger] entries[j]).0
}

/// A key is in the map exactly when an entry has it.
pub(crate) proof fn lemma_entries_dom<K, V>(entries: Seq<(K, V)>, k: K)
    ensures
        entries_map(entries).dom().contains(k) <==> exists|i: int|
            0 <= i < entries.len() && (#[trigger] entries[i]).0 == k,
    decreases entries.len(),
{
    if entries.len() > 0 {
        let rest = entries.drop_last();
        lemma_entries_dom(rest, k);
        if exists|i: int| 0 <= i < rest.len() && (#[trigger] rest[i]).0 == k {
            let i = choose|i: int| 0 <= i < rest.len() && (#[trigger] rest[i]).0 == k;
            assert(entries[i].0 == k);
        }
        if entries.last().0 == k {
            assert(entries[entries.len() - 1].0 == k);
        }
        if exists|i: int| 0 <= i < entries.len() && (#[trigger] entries[i]).0 == k {
            let i = choose|i: int| 0 <= i < entries.len() && (#[trigger] entries[i]).0 == k;
            if i < rest.len() {
                assert(rest[i].0 == k);
            }
        }
    }
}

/// Each entry of a list with unique keys is in its map.
pub(crate) proof fn lemma_entries_value<K, V>(entries: Seq<(K, V)>, i: int)
    requires
        unique_keys(entries),
        0 <= i < entries.len(),
    ensures
        entries_map(entries).dom().contains(entries[i].0),
        entries_map(entries)[entries[i].0] == entries[i].1,
    decreases entries.len(),
{
    let rest = entries.drop_last();
    if i < rest.len() {
        assert(unique_keys(rest)) by {
            assert forall|a: int, b: int| 0 <= a < b < rest.len() implies (#[trigger] rest[a]).0
                != (#[trigger] rest[b]).0 by {
                assert(entries[a].0 != entries[b].0);
            }
        }
        lemma_entries_value(rest, i);
        assert(rest[i] == entries[i]);
        assert(entries[i].0 != entries[entries.len() - 1].0);
    }
}

impl<K, V> View for KeyMap<K, V> {
    type V = Map<K, V>;

    closed spec fn view(&self) -> Map<K, V> {
        entries_map(self.entries@)
    }
}

impl<K: Key, V> KeyMap<K, V> {
    /// No key occurs twice.
    pub closed spec fn wf(&self) -> bool {
        unique_keys(self.entries@)
    }

    /// An empty map.
    pub fn new() -> (r: Self)
        ensures
            r.wf(),
            r@ == Map::<K, V>::empty(),
    {
        KeyMap { entries: Vec::new() }
    }

    /// Where the entry of `k` is.
    fn position(&self, k: &K) -> (r: Option<usize>)
        requires
            self.wf(),
        ensures
            r is Some <==> self@.dom().contains(*k),
            r matches Some(i) ==> i < self.entries@.len() && self.entries@[i as int].0 == *k
                && self.entries@[i as int].1 == self@[*k],
    {
        let mut i: usize = 0;
        while i < self.entries.len()
            invariant
                self.wf(),
                i <= self.entries@.len(),
                forall|j: int| 0 <= j < i ==> (#[trigger] self.entries@[j]).0 != *k,
            decreases self.entries@.len() - i,
        {
            if self.entries[i].0.same(k) {
                proof {
                    lemma_entries_value(self.entries@, i as int);
                }
                return Some(i);
            }
            i += 1;
        }
        proof {
            lemma_entries_dom(self.entries@, *k);
        }
        None
    }

    /// The value of `k`, if it has one.
    pub fn get(&self, k: &K) -> (r: Option<&V>)
        requires
            self.wf(),
        ensures
            r == (if self@.dom().contains(*k) {
                Some(&self@[*k])
            } else {
                None
            }),
    {
        match self.position(k) {
            Some(i) => Some(&self.entries[i].1),
            None => None,
        }
    }

    /// Whether `k` has a value.
    pub fn contains_key(&self, k: &K) -> (r: bool)
        requires
            self.wf(),
        ensures
            r == self@.dom().contains(*k),
    {
        self.position(k).is_some()
    }

    /// Gives `k` the value `v` and returns the value that it had.
    pub fn insert(&mut self, k: K, v: V) -> (r: Option<V>)
        requires
            old(self).wf(),
        ensures
            final(self).wf(),
            final(self)@ == old(self)@.insert(k, v),
            r == (if old(self)@.dom().contains(k) {
                Some(old(self)@[k])
            } else {
                None
            }),
    {
        let prev = self.remove(&k);
        proof {
            lemma_entries_dom(self.entries@, k);
        }
        let ghost before = self.entries@;
        self.entries.push((k, v));
        proof {
            assert(self.entries@.drop_last() =~= before);
            assert(unique_keys(self.entries@));
            assert(self@ =~= old(self)@.insert(k, v));
        }
        prev
    }

    /// Takes `k` out of the map and returns the value that it had.
    pub fn remove(&mut self, k: &K) -> (r: Option<V>)
        requires
            old(self).wf(),
        ensures
            final(self).wf(),
            final(self)@ == old(self)@.remove(*k),
            r == (if old(self)@.dom().contains(*k) {
                Some(old(self)@[*k])
            } else {
                None
            }),
    {
        let ghost before = self.entries@;
        match self.position(k) {
            Some(i) => {
                let (_, v) = self.entries.remove(i);
                proof {
                    let after = self.entries@;
                    lemma_remove_entry(before, i as int);
                    assert(after =~= before.remove(i as int));
                }
                Some(v)
            },
            None => {
                assert(self@ =~= old(self)@.remove(*k));
                None
            },
        }
    }

    /// All entries; the map is empty afterwards.
    pub fn drain(&mut self) -> (r: Vec<(K, V)>)
        requires
            old(self).wf(),
        ensures
            final(self).wf(),
            final(self)@ == Map::<K, V>::empty(),
            unique_keys(r@),
            entries_map(r@) == old(self)@,
    {
        let mut out: Vec<(K, V)> = Vec::new();
        std::mem::swap(&mut out, &mut self.entries);
        out
    }
}

/// Taking an entry out of a list takes its key out of the map.
proof fn lemma_remove_entry<K, V>(entries: Seq<(K, V)>, i: int)
    requires
        unique_keys(entries),
        0 <= i < entries.len(),
    ensures
        unique_keys(entries.remove(i)),
        entries_map(entries.remove(i)) =~= entries_map(entries).remove(entries[i].0),
    decreases entries.len(),
{
    let rest = entries.remove(i);
    assert forall|a: int, b: int| 0 <= a < b < rest.len() implies (#[trigger] rest[a]).0 != (
    #[trigger] rest[b]).0 by {
        let a0 = if a < i {
            a
        } else {
            a + 1
        };
        let b0 = if b < i {
            b
        } else {
            b + 1
        };
        assert(entries[a0].0 != entries[b0].0);
    }
    assert forall|k: K| entries_map(rest).dom().contains(k) <==> #[trigger] entries_map(
        entries,
    ).remove(entries[i].0).dom().contains(k) by {
        lemma_entries_dom(rest, k);
        lemma_entries_dom(entries, k);
        if entries_map(rest).dom().contains(k) {
            let a = choose|a: int| 0 <= a < rest.len() && (#[trigger] rest[a]).0 == k;
            let a0 = if a < i {
                a
            } else {
                a + 1
            };
            assert(entries[a0].0 == k);
            assert(entries[a0].0 != entries[i].0);
        }
        if entries_map(entries).remove(entries[i].0).dom().contains(k) {
            let a0 = choose|a0: int| 0 <= a0 < entries.len() && (#[trigger] entries[a0]).0 == k;
            let a = if a0 < i {
                a0
            } else {
                a0 - 1
            };
            assert(rest[a].0 == k);
        }
    }
    assert forall|k: K| #[trigger] entries_map(rest).dom().contains(k) implies entries_map(rest)[k]
        == entries_map(entries).remove(entries[i].0)[k] by {
        lemma_entries_dom(rest, k);
        let a = choose|a: int| 0 <= a < rest.len() && (#[trigger] rest[a]).0 == k;
        let a0 = if a < i {
            a
        } else {
            a + 1
        };
        lemma_entries_value(rest, a);
        lemma_entries_value(entries, a0);
        assert(entries[a0] == rest[a]);
    }
    assert(entries_map(rest) =~= entries_map(entries).remove(entries[i].0));
}

impl<K: Key + Copy, V> KeyMap<K, V> {
    /// The keys, each once.
    pub fn keys(&self) -> (r: Vec<K>)
        requires
            self.wf(),
        ensures
            r@.no_duplicates(),
            forall|k: K| #[trigger] r@.contains(k) <==> self@.dom().contains(k),
    {
        let mut out: Vec<K> = Vec::new();
        let mut i: usize = 0;
        while i < self.entries.len()
            invariant
                i <= self.entries@.len(),
                out@.len() == i,
                forall|j: int| 0 <= j < i ==> #[trigger] out@[j] == self.entries@[j].0,
            decreases self.entries@.len() - i,
        {
            out.push(self.entries[i].0);
            i += 1;
        }
        proof {
            let entries = self.entries@;
            assert forall|a: int, b: int| 0 <= a < b < out@.len() implies out@[a] != out@[b] by {
                assert(entries[a].0 != entries[b].0);
            }
            assert forall|k: K| #[trigger] out@.contains(k) <==> self@.dom().contains(k) by {
                lemma_entries_dom(entries, k);
                if out@.contains(k) {
                    let j = choose|j: int| 0 <= j < out@.len() && out@[j] == k;
                    assert(entries[j].0 == k);
                }
                if self@.dom().contains(k) {
                    let j = choose|j: int| 0 <= j < entries.len() && (#[trigger] entries[j]).0 == k;
                    assert(out@[j] == k);
                }
            }
        }
        out
    }
}

} // verus!
