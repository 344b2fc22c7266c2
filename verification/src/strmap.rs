//! An ordered map keyed by strings.
//!
//! Tag parameters, label tables and the variable scopes are all maps from
//! names to values. Entries are kept in insertion order; inserting an
//! existing key replaces its value in place.
use crate::text::{str_eq, push_char};
use vstd::prelude::*;

verus! {

/// Whether some entry of `e` has key `k`.
pub open spec fn has_key<T>(e: Seq<(Seq<char>, T)>, k: Seq<char>) -> bool {
    exists|i: int| 0 <= i < e.len() && #[trigger] e[i].0 == k
}

/// The position of key `k` in `e` (meaningful when [`has_key`]).
pub open spec fn key_index<T>(e: Seq<(Seq<char>, T)>, k: Seq<char>) -> int {
    choose|i: int| 0 <= i < e.len() && #[trigger] e[i].0 == k
}

/// The value stored under `k`, if any.
pub open spec fn lookup<T>(e: Seq<(Seq<char>, T)>, k: Seq<char>) -> Option<T> {
    if has_key(e, k) {
        Some(e[key_index(e, k)].1)
    } else {
        None
    }
}

/// No key occurs twice.
pub open spec fn distinct_keys<T>(e: Seq<(Seq<char>, T)>) -> bool {
    forall|i: int, j: int| 0 <= i < j < e.len() ==> #[trigger] e[i].0 != #[trigger] e[j].0
}

/// The entries after storing `v` under `k`: replaced in place when the key
/// is present, appended otherwise.
pub open spec fn entries_insert<T>(e: Seq<(Seq<char>, T)>, k: Seq<char>, v: T) -> Seq<
    (Seq<char>, T),
> {
    if has_key(e, k) {
        e.update(key_index(e, k), (k, v))
    } else {
        e.push((k, v))
    }
}

/// The entries after removing key `k`.
pub open spec fn entries_remove<T>(e: Seq<(Seq<char>, T)>, k: Seq<char>) -> Seq<(Seq<char>, T)> {
    if has_key(e, k) {
        e.remove(key_index(e, k))
    } else {
        e
    }
}

/// Whether `p` is a prefix of `s`.
pub open spec fn starts_with(s: Seq<char>, p: Seq<char>) -> bool {
    p.len() <= s.len() && s.subrange(0, p.len() as int) == p
}

/// With distinct keys, an entry with key `k` sits at [`key_index`].
pub proof fn lemma_key_index_unique<T>(e: Seq<(Seq<char>, T)>, k: Seq<char>, i: int)
    requires
        distinct_keys(e),
        0 <= i < e.len(),
        e[i].0 == k,
    ensures
        has_key(e, k),
        key_index(e, k) == i,
        lookup(e, k) == Some(e[i].1),
{
    assert(has_key(e, k));
    let j = key_index(e, k);
    if j != i {
        if j < i {
            assert(e[j].0 != e[i].0);
        } else {
            assert(e[i].0 != e[j].0);
        }
    }
}

/// Inserting keeps keys distinct and makes `k` map to `v`; other keys keep
/// their values.
pub proof fn lemma_insert<T>(e: Seq<(Seq<char>, T)>, k: Seq<char>, v: T)
    requires
        distinct_keys(e),
    ensures
        distinct_keys(entries_insert(e, k, v)),
        lookup(entries_insert(e, k, v), k) == Some(v),
        forall|k2: Seq<char>| k2 != k ==> lookup(entries_insert(e, k, v), k2) == lookup(e, k2),
{
    let r = entries_insert(e, k, v);
    if has_key(e, k) {
        let i = key_index(e, k);
        assert forall|a: int, b: int| 0 <= a < b < r.len() implies #[trigger] r[a].0
            != #[trigger] r[b].0 by {
            assert(e[a].0 != e[b].0);
        }
        lemma_key_index_unique(r, k, i);
        assert forall|k2: Seq<char>| k2 != k implies lookup(r, k2) == lookup(e, k2) by {
            if has_key(e, k2) {
                let j = key_index(e, k2);
                lemma_key_index_unique(r, k2, j);
            } else if has_key(r, k2) {
                let j = key_index(r, k2);
                assert(e[j].0 == k2);
            }
        }
    } else {
        assert forall|a: int, b: int| 0 <= a < b < r.len() implies #[trigger] r[a].0
            != #[trigger] r[b].0 by {
            if b == e.len() {
                assert(e[a].0 != k);
            } else {
                assert(e[a].0 != e[b].0);
            }
        }
        lemma_key_index_unique(r, k, e.len() as int);
        assert forall|k2: Seq<char>| k2 != k implies lookup(r, k2) == lookup(e, k2) by {
            if has_key(e, k2) {
                let j = key_index(e, k2);
                lemma_key_index_unique(r, k2, j);
            } else if has_key(r, k2) {
                let j = key_index(r, k2);
                assert(e[j].0 == k2);
            }
        }
    }
}

/// Removing keeps keys distinct, drops `k`, and keeps the other keys.
pub proof fn lemma_remove<T>(e: Seq<(Seq<char>, T)>, k: Seq<char>)
    requires
        distinct_keys(e),
    ensures
        distinct_keys(entries_remove(e, k)),
        lookup(entries_remove(e, k), k) is None,
        forall|k2: Seq<char>| k2 != k ==> lookup(entries_remove(e, k), k2) == lookup(e, k2),
{
    let r = entries_remove(e, k);
    if has_key(e, k) {
        let i = key_index(e, k);
        assert forall|a: int, b: int| 0 <= a < b < r.len() implies #[trigger] r[a].0
            != #[trigger] r[b].0 by {
            let a2 = if a < i {
                a
            } else {
                a + 1
            };
            let b2 = if b < i {
                b
            } else {
                b + 1
            };
            assert(r[a] == e[a2]);
            assert(r[b] == e[b2]);
            assert(e[a2].0 != e[b2].0);
        }
        if has_key(r, k) {
            let j = key_index(r, k);
            let j2 = if j < i {
                j
            } else {
                j + 1
            };
            assert(r[j] == e[j2]);
            lemma_key_index_unique(e, k, j2);
        }
        assert forall|k2: Seq<char>| k2 != k implies lookup(r, k2) == lookup(e, k2) by {
            if has_key(e, k2) {
                let j = key_index(e, k2);
                assert(j != i);
                let j2 = if j < i {
                    j
                } else {
                    j - 1
                };
                assert(r[j2] == e[j]);
                lemma_key_index_unique(r, k2, j2);
            } else if has_key(r, k2) {
                let j = key_index(r, k2);
                let j2 = if j < i {
                    j
                } else {
                    j + 1
                };
                assert(r[j] == e[j2]);
            }
        }
    }
}

/// An ordered map from strings to values (keys distinct, insertion order).
#[derive(Debug)]
pub struct StrMap<V: View> {
    entries: Vec<(String, V)>,
}

impl<V: View> View for StrMap<V> {
    type V = Seq<(Seq<char>, V::V)>;

    closed spec fn view(&self) -> Seq<(Seq<char>, V::V)> {
        Seq::new(self.entries@.len(), |i: int| (self.entries@[i].0@, self.entries@[i].1@))
    }
}

impl<V: View> StrMap<V> {
    #[verifier::type_invariant]
    spec fn keys_distinct(self) -> bool {
        distinct_keys(self@)
    }

    /// An empty map.
    pub fn new() -> (m: Self)
        ensures
            m@ == Seq::<(Seq<char>, V::V)>::empty(),
    {
        let m = StrMap { entries: Vec::new() };
        assert(m@ =~= Seq::<(Seq<char>, V::V)>::empty());
        m
    }

    /// Number of entries.
    pub fn len(&self) -> (n: usize)
        ensures
            n == self@.len(),
            distinct_keys(self@),
    {
        proof {
            use_type_invariant(self);
        }
        self.entries.len()
    }

    /// Position of `key`, if present.
    pub fn find(&self, key: &str) -> (r: Option<usize>)
        ensures
            match r {
                Some(i) => i < self@.len() && self@[i as int].0 == key@ && has_key(self@, key@)
                    && key_index(self@, key@) == i,
                None => !has_key(self@, key@),
            },
    {
        proof {
            use_type_invariant(self);
        }
        let mut i: usize = 0;
        while i < self.entries.len()
            invariant
                i <= self.entries@.len(),
                distinct_keys(self@),
                forall|j: int| 0 <= j < i ==> #[trigger] self@[j].0 != key@,
            decreases self.entries.len() - i,
        {
            if str_eq(self.entries[i].0.as_str(), key) {
                proof {
                    lemma_key_index_unique(self@, key@, i as int);
                }
                return Some(i);
            }
            i += 1;
        }
        proof {
            if has_key(self@, key@) {
                let j = key_index(self@, key@);
                assert(self@[j].0 == key@);
            }
        }
        None
    }

    /// The value stored under `key`.
    pub fn get(&self, key: &str) -> (r: Option<&V>)
        ensures
            match r {
                Some(v) => lookup(self@, key@) == Some(v@),
                None => lookup(self@, key@) is None,
            },
    {
        match self.find(key) {
            Some(i) => Some(&self.entries[i].1),
            None => None,
        }
    }

    /// Whether `key` is present.
    pub fn contains_key(&self, key: &str) -> (r: bool)
        ensures
            r == has_key(self@, key@),
    {
        self.find(key).is_some()
    }

    /// The key of entry `i`.
    pub fn key_at(&self, i: usize) -> (k: &String)
        requires
            i < self@.len(),
        ensures
            k@ == self@[i as int].0,
    {
        &self.entries[i].0
    }

    /// The value of entry `i`.
    pub fn value_at(&self, i: usize) -> (v: &V)
        requires
            i < self@.len(),
        ensures
            v@ == self@[i as int].1,
    {
        &self.entries[i].1
    }

    /// Stores `value` under `key`, replacing an existing value in place.
    pub fn insert(&mut self, key: String, value: V)
        ensures
            final(self)@ == entries_insert(old(self)@, key@, value@),
    {
        proof {
            use_type_invariant(&*self);
            lemma_insert(self@, key@, value@);
        }
        let ghost old_view = self@;
        match self.find(key.as_str()) {
            Some(i) => {
                let ghost kv = key@;
                let ghost vv = value@;
                let mut entries = Vec::new();
                std::mem::swap(&mut entries, &mut self.entries);
                entries.set(i, (key, value));
                let ghost ne = entries@;
                assert(Seq::new(ne.len(), |j: int| (ne[j].0@, ne[j].1@)) =~= old_view.update(
                    i as int,
                    (kv, vv),
                ));
                self.entries = entries;
            },
            None => {
                let ghost kv = key@;
                let ghost vv = value@;
                let mut entries = Vec::new();
                std::mem::swap(&mut entries, &mut self.entries);
                entries.push((key, value));
                let ghost ne = entries@;
                assert(Seq::new(ne.len(), |j: int| (ne[j].0@, ne[j].1@)) =~= old_view.push(
                    (kv, vv),
                ));
                self.entries = entries;
            },
        }
    }

    /// Removes `key`, returning its value when it was present.
    pub fn remove(&mut self, key: &str) -> (r: Option<V>)
        ensures
            final(self)@ == entries_remove(old(self)@, key@),
            match r {
                Some(v) => lookup(old(self)@, key@) == Some(v@),
                None => lookup(old(self)@, key@) is None,
            },
    {
        proof {
            use_type_invariant(&*self);
            lemma_remove(self@, key@);
        }
        let ghost old_view = self@;
        match self.find(key) {
            Some(i) => {
                let mut entries = Vec::new();
                std::mem::swap(&mut entries, &mut self.entries);
                let (_k, v) = entries.remove(i);
                let ghost ne = entries@;
                assert(Seq::new(ne.len(), |j: int| (ne[j].0@, ne[j].1@)) =~= old_view.remove(
                    i as int,
                ));
                self.entries = entries;
                Some(v)
            },
            None => None,
        }
    }

    /// Removes every entry.
    pub fn clear(&mut self)
        ensures
            final(self)@ == Seq::<(Seq<char>, V::V)>::empty(),
    {
        let mut entries = Vec::new();
        std::mem::swap(&mut entries, &mut self.entries);
        entries.clear();
        self.entries = entries;
        assert(self@ =~= Seq::<(Seq<char>, V::V)>::empty());
    }

    /// Removes every entry whose key starts with `prefix`, keeping the order
    /// of the others.
    pub fn remove_prefixed(&mut self, prefix: &str)
        ensures
            final(self)@ == old(self)@.filter(|e: (Seq<char>, V::V)| !starts_with(e.0, prefix@)),
    {
        proof {
            use_type_invariant(&*self);
        }
        let ghost old_view = self@;
        let ghost pred = |e: (Seq<char>, V::V)| !starts_with(e.0, prefix@);
        let pv = crate::text::chars_of(prefix);
        let mut source = Vec::new();
        std::mem::swap(&mut source, &mut self.entries);
        let ghost src = source@;
        assert(Seq::new(src.len(), |j: int| (src[j].0@, src[j].1@)) == old_view);
        let mut kept: Vec<(String, V)> = Vec::new();
        let mut idx: usize = 0;
        let n = source.len();
        while idx < n
            invariant
                idx <= n,
                source@ == src.skip(idx as int),
                n == src.len(),
                n == old_view.len(),
                distinct_keys(old_view),
                old_view == Seq::new(src.len(), |j: int| (src[j].0@, src[j].1@)),
                pv@ == prefix@,
                pred == (|e: (Seq<char>, V::V)| !starts_with(e.0, prefix@)),
                Seq::new(kept@.len(), |j: int| (kept@[j].0@, kept@[j].1@)) == old_view.take(
                    idx as int,
                ).filter(pred),
                distinct_keys(Seq::new(kept@.len(), |j: int| (kept@[j].0@, kept@[j].1@))),
                forall|a: int|
                    0 <= a < kept@.len() ==> exists|b: int|
                        0 <= b < idx && #[trigger] kept@[a].0@ == old_view[b].0,
            decreases n - idx,
        {
            let e = source.remove(0);
            assert(source@ =~= src.skip(idx + 1));
            let ghost ev = (e.0@, e.1@);
            assert(ev == old_view[idx as int]);
            let ek = crate::text::chars_of(e.0.as_str());
            let mut is_pre = pv.len() <= ek.len();
            let mut j: usize = 0;
            while is_pre && j < pv.len()
                invariant
                    j <= pv@.len(),
                    is_pre ==> pv@.len() <= ek@.len(),
                    is_pre ==> ek@.subrange(0, j as int) == pv@.subrange(0, j as int),
                    !is_pre ==> !starts_with(ek@, pv@),
                decreases pv.len() - j + (if is_pre { 1int } else { 0int }),
            {
                if ek[j] != pv[j] {
                    is_pre = false;
                    assert(ek@.subrange(0, pv@.len() as int)[j as int] != pv@[j as int]);
                } else {
                    j += 1;
                    assert(ek@.subrange(0, j as int) =~= pv@.subrange(0, j as int));
                }
            }
            assert(is_pre ==> ek@.subrange(0, pv@.len() as int) =~= pv@);
            assert(is_pre == starts_with(ev.0, prefix@));
            let ghost before = kept@;
            let ghost bv = Seq::new(before.len(), |j: int| (before[j].0@, before[j].1@));
            assert(old_view.take(idx + 1).drop_last() =~= old_view.take(idx as int));
            reveal_with_fuel(Seq::<_>::filter, 1);
            assert(old_view.take(idx + 1).last() == ev);
            assert(pred(ev) == !starts_with(ev.0, prefix@));
            assert(pred(ev) == !is_pre);
            assert(old_view.take(idx + 1).filter(pred) == (if !is_pre {
                old_view.take(idx as int).filter(pred).push(ev)
            } else {
                old_view.take(idx as int).filter(pred)
            }));
            if !is_pre {
                proof {
                    assert forall|a: int| 0 <= a < before.len() implies #[trigger] before[a].0@
                        != ev.0 by {
                        let b = choose|b: int| 0 <= b < idx && #[trigger] before[a].0@ == old_view[b].0;
                        assert(old_view[b].0 != old_view[idx as int].0);
                    }
                }
                kept.push(e);
                let ghost kk = kept@;
                let ghost kv = Seq::new(kk.len(), |j: int| (kk[j].0@, kk[j].1@));
                assert(kv =~= bv.push(ev));
                assert forall|a: int, b: int| 0 <= a < b < kv.len() implies #[trigger] kv[a].0
                    != #[trigger] kv[b].0 by {
                    if b == bv.len() {
                        assert(kv[a].0 == before[a].0@);
                    } else {
                        assert(bv[a].0 != bv[b].0);
                    }
                }
                assert forall|a: int| 0 <= a < kk.len() implies exists|b: int|
                    0 <= b < idx + 1 && #[trigger] kk[a].0@ == old_view[b].0 by {
                    if a < before.len() {
                        let b = choose|b: int| 0 <= b < idx && #[trigger] before[a].0@ == old_view[b].0;
                        assert(kk[a] == before[a]);
                    } else {
                        assert(kk[a].0@ == old_view[idx as int].0);
                    }
                }
            }
            idx += 1;
        }
        assert(old_view.take(n as int) =~= old_view);
        self.entries = kept;
    }
}

impl<V: View + Clone> Clone for StrMap<V> {
    /// A copy with the same keys in the same order.
    fn clone(&self) -> (r: Self)
        ensures
            r@.len() == self@.len(),
            forall|i: int| 0 <= i < r@.len() ==> #[trigger] r@[i].0 == self@[i].0,
    {
        proof {
            use_type_invariant(self);
        }
        let mut entries: Vec<(String, V)> = Vec::new();
        let mut i: usize = 0;
        while i < self.entries.len()
            invariant
                i <= self.entries@.len(),
                entries@.len() == i,
                forall|j: int| 0 <= j < i ==> #[trigger] entries@[j].0@ == self.entries@[j].0@,
            decreases self.entries.len() - i,
        {
            let k = self.entries[i].0.clone();
            let v = self.entries[i].1.clone();
            entries.push((k, v));
            i += 1;
        }
        let ghost ev = entries@;
        let ghost nv = Seq::new(ev.len(), |j: int| (ev[j].0@, ev[j].1@));
        assert forall|a: int, b: int| 0 <= a < b < nv.len() implies #[trigger] nv[a].0
            != #[trigger] nv[b].0 by {
            assert(self@[a].0 != self@[b].0);
        }
        StrMap { entries }
    }
}

impl StrMap<String> {
    /// A copy of this map.
    pub fn duplicate(&self) -> (r: Self)
        ensures
            r@ == self@,
    {
        proof {
            use_type_invariant(self);
        }
        let mut entries: Vec<(String, String)> = Vec::new();
        let mut i: usize = 0;
        while i < self.entries.len()
            invariant
                i <= self.entries@.len(),
                entries@.len() == i,
                forall|j: int|
                    0 <= j < i ==> #[trigger] entries@[j].0@ == self.entries@[j].0@
                        && entries@[j].1@ == self.entries@[j].1@,
            decreases self.entries.len() - i,
        {
            let k = self.entries[i].0.clone();
            let v = self.entries[i].1.clone();
            entries.push((k, v));
            i += 1;
        }
        let ghost ev = entries@;
        assert(Seq::new(ev.len(), |j: int| (ev[j].0@, ev[j].1@)) =~= self@);
        let r = StrMap { entries };
        r
    }
}

impl StrMap<crate::variable::Value> {
    /// A copy of this map.
    pub fn duplicate(&self) -> (r: Self)
        ensures
            r@ == self@,
    {
        proof {
            use_type_invariant(self);
        }
        let mut entries: Vec<(String, crate::variable::Value)> = Vec::new();
        let mut i: usize = 0;
        while i < self.entries.len()
            invariant
                i <= self.entries@.len(),
                entries@.len() == i,
                forall|j: int|
                    0 <= j < i ==> #[trigger] entries@[j].0@ == self.entries@[j].0@
                        && entries@[j].1@ == self.entries@[j].1@,
            decreases self.entries.len() - i,
        {
            let k = self.entries[i].0.clone();
            let v = self.entries[i].1.duplicate();
            entries.push((k, v));
            i += 1;
        }
        let ghost ev = entries@;
        assert(Seq::new(ev.len(), |j: int| (ev[j].0@, ev[j].1@)) =~= self@);
        let r = StrMap { entries };
        r
    }
}

} // verus!
