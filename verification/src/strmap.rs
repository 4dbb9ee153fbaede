//! A small map keyed by text that keeps its entries in the order in which
//! their keys first arrived.

use vstd::prelude::*;
use crate::text::{Text, str_eq};

verus! {

/// A map from strings to values. No key occurs twice; a key stays where it
/// first arrived, whatever is stored under it later. Two maps compare equal
/// with `==` where they hold the same entries in the same order.
#[derive(Debug, PartialEq, Eq)]
pub struct TextMap<V: DeepView> {
    entries: Vec<(String, V)>,
}

/// A map from strings to strings.
pub type StrMap = TextMap<String>;

/// No two entries of `s` share a key.
pub open spec fn keys_unique<W>(s: Seq<(Text, W)>) -> bool {
    forall|i: int, j: int| 0 <= i < j < s.len() ==> (#[trigger] s[i]).0 != (#[trigger] s[j]).0
}

/// Whether some entry of `s` has the key `k`.
pub open spec fn has_key<W>(s: Seq<(Text, W)>, k: Text) -> bool {
    exists|i: int| 0 <= i < s.len() && (#[trigger] s[i]).0 == k
}

/// The map that a list of entries with unique keys stands for.
pub open spec fn entries_map<W>(s: Seq<(Text, W)>) -> Map<Text, W> {
    Map::new(
        |k: Text| has_key(s, k),
        |k: Text| s[choose|i: int| 0 <= i < s.len() && (#[trigger] s[i]).0 == k].1,
    )
}

/// What `entries_map` holds under the key of an entry.
pub proof fn lemma_entries_map_at<W>(s: Seq<(Text, W)>, i: int)
    requires
        keys_unique(s),
        0 <= i < s.len(),
    ensures
        entries_map(s).contains_key(s[i].0),
        entries_map(s)[s[i].0] == s[i].1,
{
    let k = s[i].0;
    assert(has_key(s, k));
    let c = choose|c: int| 0 <= c < s.len() && (#[trigger] s[c]).0 == k;
    if c < i {
        assert(s[c].0 != s[i].0);
    } else if i < c {
        assert(s[i].0 != s[c].0);
    }
}

impl<V: DeepView> TextMap<V> {
    #[verifier::type_invariant]
    spec fn unique(self) -> bool {
        keys_unique(self.entries.deep_view())
    }

    /// The entries, in the order in which their keys arrived.
    pub closed spec fn spec_entries(&self) -> Seq<(Text, V::V)> {
        self.entries.deep_view()
    }

    /// An empty map.
    pub fn new() -> (m: Self)
        ensures
            m@ == Map::<Text, V::V>::empty(),
            m.spec_entries() == Seq::<(Text, V::V)>::empty(),
    {
        let m: TextMap<V> = TextMap { entries: Vec::new() };
        assert(m.entries.deep_view() =~= Seq::<(Text, V::V)>::empty());
        assert(m@ =~= Map::<Text, V::V>::empty());
        m
    }

    /// The number of entries.
    pub fn len(&self) -> (n: usize)
        ensures
            n == self.spec_entries().len(),
            keys_unique(self.spec_entries()),
    {
        proof {
            use_type_invariant(self);
        }
        self.entries.len()
    }

    /// The key and the value of the entry at `i`.
    pub fn entry(&self, i: usize) -> (kv: (&String, &V))
        requires
            i < self.spec_entries().len(),
        ensures
            kv.0@ == self.spec_entries()[i as int].0,
            kv.1.deep_view() == self.spec_entries()[i as int].1,
    {
        (&self.entries[i].0, &self.entries[i].1)
    }

    fn position(&self, key: &str) -> (at: Option<usize>)
        ensures
            match at {
                Some(i) => i < self.entries.len() && self.entries.deep_view()[i as int].0 == key@,
                None => !has_key(self.entries.deep_view(), key@),
            },
    {
        let mut i: usize = 0;
        while i < self.entries.len()
            invariant
                i <= self.entries.len(),
                forall|j: int| 0 <= j < i ==> (#[trigger] self.entries.deep_view()[j]).0 != key@,
            decreases self.entries.len() - i,
        {
            if str_eq(self.entries[i].0.as_str(), key) {
                return Some(i);
            }
            i += 1;
        }
        None
    }

    /// The value stored under `key`, if there is one.
    pub fn get(&self, key: &str) -> (value: Option<&V>)
        ensures
            value.deep_view() == (if self@.contains_key(key@) {
                Some(self@[key@])
            } else {
                None
            }),
    {
        proof {
            use_type_invariant(self);
        }
        match self.position(key) {
            Some(i) => {
                proof {
                    lemma_entries_map_at(self.entries.deep_view(), i as int);
                }
                Some(&self.entries[i].1)
            },
            None => None,
        }
    }

    /// Stores `value` under `key`, in place of what was there.
    pub fn insert(&mut self, key: String, value: V)
        ensures
            final(self)@ == old(self)@.insert(key@, value.deep_view()),
            final(self).spec_entries() == (if has_key(old(self).spec_entries(), key@) {
                let i = choose|i: int|
                    0 <= i < old(self).spec_entries().len() && (#[trigger] old(
                        self,
                    ).spec_entries()[i]).0 == key@;
                old(self).spec_entries().update(i, (key@, value.deep_view()))
            } else {
                old(self).spec_entries().push((key@, value.deep_view()))
            }),
    {
        proof {
            use_type_invariant(&*self);
        }
        let ghost before = self.entries.deep_view();
        let at = self.position(key.as_str());
        let mut taken: TextMap<V> = TextMap { entries: Vec::new() };
        core::mem::swap(self, &mut taken);
        let TextMap { entries } = taken;
        let mut entries: Vec<(String, V)> = entries;
        match at {
            Some(i) => {
                let ghost c = choose|c: int|
                    0 <= c < before.len() && (#[trigger] before[c]).0 == key@;
                proof {
                    if c < i {
                        assert(before[c].0 != before[i as int].0);
                    } else if i < c {
                        assert(before[i as int].0 != before[c].0);
                    }
                }
                entries.set(i, (key, value));
                proof {
                    let after = entries.deep_view();
                    assert(after =~= before.update(i as int, (key@, value.deep_view())));
                    assert(keys_unique(after)) by {
                        assert forall|a: int, b: int| 0 <= a < b < after.len() implies (
                        #[trigger] after[a]).0 != (#[trigger] after[b]).0 by {
                            assert(before[a].0 != before[b].0);
                        }
                    }
                    lemma_insert_view(before, after, key@, value.deep_view(), i as int);
                }
            },
            None => {
                entries.push((key, value));
                proof {
                    let after = entries.deep_view();
                    assert(after =~= before.push((key@, value.deep_view())));
                    assert(keys_unique(after)) by {
                        assert forall|a: int, b: int| 0 <= a < b < after.len() implies (
                        #[trigger] after[a]).0 != (#[trigger] after[b]).0 by {
                            if b < before.len() {
                                assert(before[a].0 != before[b].0);
                            } else {
                                assert(before[a].0 != key@);
                            }
                        }
                    }
                    lemma_insert_view(before, after, key@, value.deep_view(), before.len() as int);
                }
            },
        }
        *self = TextMap { entries };
    }

}

impl<V: DeepView> TextMap<V> {
    /// Takes out what is stored under `key`, if anything is. The other
    /// entries keep their order.
    pub fn remove(&mut self, key: &str) -> (value: Option<V>)
        ensures
            final(self)@ == old(self)@.remove(key@),
            value.deep_view() == (if old(self)@.contains_key(key@) {
                Some(old(self)@[key@])
            } else {
                None
            }),
            final(self).spec_entries() == (if has_key(old(self).spec_entries(), key@) {
                let i = choose|i: int|
                    0 <= i < old(self).spec_entries().len() && (#[trigger] old(
                        self,
                    ).spec_entries()[i]).0 == key@;
                old(self).spec_entries().remove(i)
            } else {
                old(self).spec_entries()
            }),
    {
        proof {
            use_type_invariant(&*self);
        }
        let ghost before = self.entries.deep_view();
        let at = self.position(key);
        match at {
            Some(i) => {
                let ghost c = choose|c: int|
                    0 <= c < before.len() && (#[trigger] before[c]).0 == key@;
                proof {
                    if c < i {
                        assert(before[c].0 != before[i as int].0);
                    } else if i < c {
                        assert(before[i as int].0 != before[c].0);
                    }
                    lemma_entries_map_at(before, i as int);
                }
                let mut taken: TextMap<V> = TextMap { entries: Vec::new() };
                core::mem::swap(self, &mut taken);
                let TextMap { entries } = taken;
                let mut entries: Vec<(String, V)> = entries;
                let removed = entries.remove(i);
                proof {
                    let after = entries.deep_view();
                    assert(after =~= before.remove(i as int));
                    assert(keys_unique(after)) by {
                        assert forall|a: int, b: int| 0 <= a < b < after.len() implies (
                        #[trigger] after[a]).0 != (#[trigger] after[b]).0 by {
                            let a0 = if a < i { a } else { a + 1 };
                            let b0 = if b < i { b } else { b + 1 };
                            assert(before[a0].0 != before[b0].0);
                        }
                    }
                    lemma_remove_view(before, after, i as int);
                }
                *self = TextMap { entries };
                Some(removed.1)
            },
            None => {
                assert(self@ =~= old(self)@.remove(key@));
                None
            },
        }
    }
}

proof fn lemma_remove_view<W>(before: Seq<(Text, W)>, after: Seq<(Text, W)>, at: int)
    requires
        keys_unique(before),
        keys_unique(after),
        0 <= at < before.len(),
        after == before.remove(at),
    ensures
        entries_map(after) == entries_map(before).remove(before[at].0),
{
    let k = before[at].0;
    let m = entries_map(before).remove(k);
    assert forall|x: Text| entries_map(after).contains_key(x) == m.contains_key(x) by {
        if has_key(after, x) {
            let i = choose|i: int| 0 <= i < after.len() && (#[trigger] after[i]).0 == x;
            let i0 = if i < at { i } else { i + 1 };
            assert(before[i0].0 == x);
            if i0 < at {
                assert(before[i0].0 != before[at].0);
            } else {
                assert(before[at].0 != before[i0].0);
            }
        }
        if has_key(before, x) && x != k {
            let i = choose|i: int| 0 <= i < before.len() && (#[trigger] before[i]).0 == x;
            let i1 = if i < at { i } else { i - 1 };
            assert(after[i1].0 == x);
        }
    }
    assert forall|x: Text| entries_map(after).contains_key(x) implies entries_map(after)[x] == m[x] by {
        let i = choose|i: int| 0 <= i < after.len() && (#[trigger] after[i]).0 == x;
        lemma_entries_map_at(after, i);
        let i0 = if i < at { i } else { i + 1 };
        assert(before[i0].0 == x);
        lemma_entries_map_at(before, i0);
    }
    assert(entries_map(after) =~= m);
}

impl TextMap<String> {
    /// A copy of the map.
    pub fn duplicate(&self) -> (copy: Self)
        ensures
            copy@ == self@,
            copy.spec_entries() == self.spec_entries(),
    {
        proof {
            use_type_invariant(self);
        }
        let mut entries: Vec<(String, String)> = Vec::new();
        let mut i: usize = 0;
        while i < self.entries.len()
            invariant
                i <= self.entries.len(),
                entries.deep_view() == self.entries.deep_view().take(i as int),
            decreases self.entries.len() - i,
        {
            let ghost prev = entries.deep_view();
            entries.push((self.entries[i].0.clone(), self.entries[i].1.clone()));
            assert(entries.deep_view() =~= prev.push(self.entries.deep_view()[i as int]));
            assert(self.entries.deep_view().take(i as int + 1) =~= self.entries.deep_view().take(
                i as int,
            ).push(self.entries.deep_view()[i as int]));
            i += 1;
        }
        assert(self.entries.deep_view().take(self.entries.len() as int) =~= self.entries.deep_view());
        TextMap { entries }
    }
}

impl<V: DeepView> View for TextMap<V> {
    type V = Map<Text, V::V>;

    open spec fn view(&self) -> Map<Text, V::V> {
        entries_map(self.spec_entries())
    }
}

impl<V: DeepView> DeepView for TextMap<V> {
    type V = Map<Text, V::V>;

    open spec fn deep_view(&self) -> Map<Text, V::V> {
        self@
    }
}

impl Clone for TextMap<String> {
    fn clone(&self) -> (copy: Self)
        ensures
            copy@ == self@,
            copy.spec_entries() == self.spec_entries(),
    {
        self.duplicate()
    }
}

/// What inserting does to the map that a list of entries stands for.
pub proof fn lemma_insert_view<W>(before: Seq<(Text, W)>, after: Seq<(Text, W)>, k: Text, v: W, at: int)
    requires
        keys_unique(before),
        keys_unique(after),
        0 <= at <= before.len(),
        at < before.len() ==> before[at].0 == k && after == before.update(at, (k, v)),
        at == before.len() ==> !has_key(before, k) && after == before.push((k, v)),
    ensures
        entries_map(after) == entries_map(before).insert(k, v),
{
    let m = entries_map(before).insert(k, v);
    assert forall|x: Text| entries_map(after).contains_key(x) == m.contains_key(x) by {
        if has_key(after, x) {
            let i = choose|i: int| 0 <= i < after.len() && (#[trigger] after[i]).0 == x;
            if i != at {
                assert(before[i].0 == x);
            }
        }
        if has_key(before, x) {
            let i = choose|i: int| 0 <= i < before.len() && (#[trigger] before[i]).0 == x;
            assert(after[i].0 == x);
        }
        if x == k {
            assert(after[at].0 == x);
        }
    }
    assert forall|x: Text| entries_map(after).contains_key(x) implies entries_map(after)[x] == m[x] by {
        let i = choose|i: int| 0 <= i < after.len() && (#[trigger] after[i]).0 == x;
        lemma_entries_map_at(after, i);
        if i != at {
            assert(before[i].0 == x);
            lemma_entries_map_at(before, i);
        }
    }
    assert(entries_map(after) =~= m);
}

} // verus!
