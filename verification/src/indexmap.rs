//! Insertion-ordered maps over identifiers, and the three-way split used by
//! the merge engine.
//!
//! Record fields are kept as a sequence of `(key, value)` entries in insertion
//! order. Keys are unique (see [`IndexMap::wf`]); iteration order is the
//! insertion order, but the contents are semantically a set of bindings, and
//! every contract in this crate speaks of them through [`IndexMap::maps_to`]
//! and [`IndexMap::contains_sym`].

use vstd::prelude::*;

use crate::ident::Ident;

verus! {

/// Does the entry sequence `s` bind the symbol `k`?
pub open spec fn seq_has_sym<V>(s: Seq<(Ident, V)>, k: usize) -> bool {
    exists|i: int| 0 <= i < s.len() && (#[trigger] s[i]).0.sym == k
}

/// Does the entry sequence `s` bind the symbol `k` to the value `v`?
pub open spec fn seq_binds<V>(s: Seq<(Ident, V)>, k: usize, v: V) -> bool {
    exists|i: int| 0 <= i < s.len() && (#[trigger] s[i]).0.sym == k && s[i].1 == v
}

/// Appending an entry adds exactly one binding.
pub proof fn lemma_push_syms<V>(s: Seq<(Ident, V)>, e: (Ident, V))
    ensures
        forall|k: usize| #[trigger]
            seq_has_sym(s.push(e), k) <==> (seq_has_sym(s, k) || e.0.sym == k),
        forall|k: usize, v: V| #[trigger]
            seq_binds(s.push(e), k, v) <==> (seq_binds(s, k, v) || (e.0.sym == k && e.1 == v)),
{
    assert forall|k: usize| #[trigger]
        seq_has_sym(s.push(e), k) implies (seq_has_sym(s, k) || e.0.sym == k) by {
        let i = choose|i: int| 0 <= i < s.push(e).len() && (#[trigger] s.push(e)[i]).0.sym == k;
        if i < s.len() {
            assert(s[i] == s.push(e)[i]);
        }
    }
    assert forall|k: usize| (seq_has_sym(s, k) || e.0.sym == k) implies #[trigger]
        seq_has_sym(s.push(e), k) by {
        if seq_has_sym(s, k) {
            let i = choose|i: int| 0 <= i < s.len() && (#[trigger] s[i]).0.sym == k;
            assert(s.push(e)[i] == s[i]);
        } else {
            assert(s.push(e)[s.len() as int] == e);
        }
    }
    assert forall|k: usize, v: V| #[trigger]
        seq_binds(s.push(e), k, v) implies (seq_binds(s, k, v) || (e.0.sym == k && e.1 == v)) by {
        let i = choose|i: int|
            0 <= i < s.push(e).len() && (#[trigger] s.push(e)[i]).0.sym == k && s.push(e)[i].1
                == v;
        if i < s.len() {
            assert(s[i] == s.push(e)[i]);
        }
    }
    assert forall|k: usize, v: V| (seq_binds(s, k, v) || (e.0.sym == k && e.1 == v)) implies
        #[trigger] seq_binds(s.push(e), k, v) by {
        if seq_binds(s, k, v) {
            let i = choose|i: int|
                0 <= i < s.len() && (#[trigger] s[i]).0.sym == k && s[i].1 == v;
            assert(s.push(e)[i] == s[i]);
        } else {
            assert(s.push(e)[s.len() as int] == e);
        }
    }
}

/// A map from identifiers to values, kept in insertion order.
#[derive(Debug)]
pub struct IndexMap<V> {
    pub entries: Vec<(Ident, V)>,
}

impl<V> IndexMap<V> {
    /// Keys are unique.
    pub open spec fn wf(self) -> bool {
        forall|i: int, j: int|
            0 <= i < j < self.entries@.len() ==> (#[trigger] self.entries@[i]).0.sym != (
            #[trigger] self.entries@[j]).0.sym
    }

    /// The map binds the symbol `s`.
    pub open spec fn contains_sym(self, s: usize) -> bool {
        seq_has_sym(self.entries@, s)
    }

    /// The map binds the symbol `s` to the value `v`.
    pub open spec fn maps_to(self, s: usize, v: V) -> bool {
        seq_binds(self.entries@, s, v)
    }

    /// In a well-formed map a symbol is bound to at most one value.
    pub proof fn lemma_maps_to_unique(self, s: usize, v1: V, v2: V)
        requires
            self.wf(),
            self.maps_to(s, v1),
            self.maps_to(s, v2),
        ensures
            v1 == v2,
    {
        let i1 = choose|i: int|
            0 <= i < self.entries@.len() && (#[trigger] self.entries@[i]).0.sym == s
                && self.entries@[i].1 == v1;
        let i2 = choose|i: int|
            0 <= i < self.entries@.len() && (#[trigger] self.entries@[i]).0.sym == s
                && self.entries@[i].1 == v2;
        assert(i1 == i2);
    }

    /// The empty map.
    pub fn new() -> (r: IndexMap<V>)
        ensures
            r.entries@.len() == 0,
            r.wf(),
            forall|s: usize| !r.contains_sym(s),
    {
        IndexMap { entries: Vec::new() }
    }

    /// Number of bindings.
    pub fn len(&self) -> (n: usize)
        ensures
            n == self.entries@.len(),
    {
        self.entries.len()
    }

    /// Is the map empty?
    pub fn is_empty(&self) -> (r: bool)
        ensures
            r <==> self.entries@.len() == 0,
    {
        self.entries.len() == 0
    }

    /// Position of the entry keyed by `k`, if any.
    fn find_index(&self, k: Ident) -> (r: Option<usize>)
        ensures
            match r {
                Some(i) => i < self.entries@.len() && self.entries@[i as int].0.sym == k.sym
                    && forall|j: int| 0 <= j < i ==> (#[trigger] self.entries@[j]).0.sym != k.sym,
                None => !self.contains_sym(k.sym),
            },
    {
        let mut i: usize = 0;
        while i < self.entries.len()
            invariant
                i <= self.entries@.len(),
                forall|j: int| 0 <= j < i ==> (#[trigger] self.entries@[j]).0.sym != k.sym,
            decreases self.entries@.len() - i,
        {
            if self.entries[i].0.sym == k.sym {
                return Some(i);
            }
            i = i + 1;
        }
        None
    }

    /// Does the map bind `k`?
    pub fn contains_key(&self, k: Ident) -> (r: bool)
        ensures
            r <==> self.contains_sym(k.sym),
    {
        match self.find_index(k) {
            Some(_) => true,
            None => false,
        }
    }

    /// Read access to the value bound to `k`.
    pub fn get(&self, k: Ident) -> (r: Option<&V>)
        ensures
            match r {
                Some(v) => self.maps_to(k.sym, *v),
                None => !self.contains_sym(k.sym),
            },
    {
        match self.find_index(k) {
            Some(i) => Some(&self.entries[i].1),
            None => None,
        }
    }

    /// Insert a binding; an existing binding for the same key is replaced in
    /// place and its value returned.
    pub fn insert(&mut self, k: Ident, v: V) -> (r: Option<V>)
        ensures
            !old(self).contains_sym(k.sym) ==> (r is None && final(self).entries@ == old(
                self,
            ).entries@.push((k, v))),
            old(self).contains_sym(k.sym) ==> (exists|i: int|
                0 <= i < old(self).entries@.len() && (#[trigger] old(self).entries@[i]).0.sym
                    == k.sym && r == Some(old(self).entries@[i].1) && final(self).entries@ == old(
                    self,
                ).entries@.update(i, (k, v))),
            old(self).wf() ==> final(self).wf(),
    {
        match self.find_index(k) {
            Some(i) => {
                let mut pair = (k, v);
                self.entries.set_and_swap(i, &mut pair);
                assert(old(self).wf() ==> self.wf()) by {
                    if old(self).wf() {
                        assert(forall|a: int, b: int|
                            0 <= a < b < self.entries@.len() ==> (
                            #[trigger] self.entries@[a]).0.sym != (
                            #[trigger] self.entries@[b]).0.sym);
                    }
                }
                Some(pair.1)
            },
            None => {
                self.entries.push((k, v));
                None
            },
        }
    }

    /// Remove the binding for `k`, if any, returning its value. The relative
    /// order of the remaining entries is kept.
    pub fn remove(&mut self, k: Ident) -> (r: Option<V>)
        ensures
            !old(self).contains_sym(k.sym) ==> (r is None && final(self).entries@ == old(self).entries@),
            old(self).contains_sym(k.sym) ==> (exists|i: int|
                0 <= i < old(self).entries@.len() && (#[trigger] old(self).entries@[i]).0.sym
                    == k.sym && r == Some(old(self).entries@[i].1) && final(self).entries@ == old(
                    self,
                ).entries@.remove(i)),
            old(self).wf() ==> final(self).wf(),
            forall|s: usize, v: V|
                #[trigger] final(self).maps_to(s, v) ==> old(self).maps_to(s, v),
            forall|s: usize|
                #[trigger] final(self).contains_sym(s) ==> old(self).contains_sym(s),
            forall|s: usize|
                old(self).contains_sym(s) && s != k.sym ==> final(self).contains_sym(s),
            forall|s: usize, v: V|
                old(self).maps_to(s, v) && s != k.sym ==> final(self).maps_to(s, v),
            old(self).wf() ==> !final(self).contains_sym(k.sym),
    {
        match self.find_index(k) {
            Some(i) => {
                let pair = self.entries.remove(i);
                proof {
                    let n = old(self).entries@.len();
                    assert forall|s: usize| #[trigger]
                        self.contains_sym(s) implies old(self).contains_sym(s) by {
                        let j = choose|j: int|
                            0 <= j < self.entries@.len() && (#[trigger] self.entries@[j]).0.sym
                                == s;
                        if j < i {
                            assert(old(self).entries@[j] == self.entries@[j]);
                        } else {
                            assert(old(self).entries@[j + 1] == self.entries@[j]);
                        }
                    }
                    assert forall|s: usize|
                        old(self).contains_sym(s) && s != k.sym implies #[trigger]
                        self.contains_sym(s) by {
                        let j = choose|j: int|
                            0 <= j < old(self).entries@.len() && (#[trigger] old(
                                self,
                            ).entries@[j]).0.sym == s;
                        if j < i {
                            assert(self.entries@[j] == old(self).entries@[j]);
                        } else {
                            assert(j != i);
                            assert(self.entries@[j - 1] == old(self).entries@[j]);
                        }
                    }
                    if old(self).wf() {
                        assert(!self.contains_sym(k.sym)) by {
                            if self.contains_sym(k.sym) {
                                let j = choose|j: int|
                                    0 <= j < self.entries@.len() && (
                                    #[trigger] self.entries@[j]).0.sym == k.sym;
                                if j < i {
                                    assert(old(self).entries@[j] == self.entries@[j]);
                                } else {
                                    assert(old(self).entries@[j + 1] == self.entries@[j]);
                                }
                            }
                        }
                    }
                    assert forall|s: usize, v: V| #[trigger]
                        self.maps_to(s, v) implies old(self).maps_to(s, v) by {
                        let j = choose|j: int|
                            0 <= j < self.entries@.len() && (#[trigger] self.entries@[j]).0.sym == s
                                && self.entries@[j].1 == v;
                        if j < i {
                            assert(old(self).entries@[j] == self.entries@[j]);
                        } else {
                            assert(old(self).entries@[j + 1] == self.entries@[j]);
                        }
                    }
                    assert forall|s: usize, v: V|
                        old(self).maps_to(s, v) && s != k.sym implies self.maps_to(s, v) by {
                        let j = choose|j: int|
                            0 <= j < old(self).entries@.len() && (#[trigger] old(
                                self,
                            ).entries@[j]).0.sym == s && old(self).entries@[j].1 == v;
                        if j < i {
                            assert(self.entries@[j] == old(self).entries@[j]);
                        } else {
                            assert(j != i);
                            assert(self.entries@[j - 1] == old(self).entries@[j]);
                        }
                    }
                }
                Some(pair.1)
            },
            None => None,
        }
    }

    /// Remove and return the first entry.
    pub fn take_first(&mut self) -> (r: (Ident, V))
        requires
            old(self).entries@.len() > 0,
        ensures
            r == old(self).entries@[0],
            final(self).entries@ == old(self).entries@.drop_first(),
            old(self).wf() ==> final(self).wf(),
    {
        let pair = self.entries.remove(0);
        proof {
            assert(self.entries@ =~= old(self).entries@.drop_first());
        }
        pair
    }

    /// The key of the entry at position `i`.
    pub fn key_at(&self, i: usize) -> (r: Ident)
        requires
            i < self.entries@.len(),
        ensures
            r == self.entries@[i as int].0,
    {
        self.entries[i].0
    }
}

/// The bindings of `s` whose key the entry sequence `other` does not bind,
/// in order.
pub open spec fn left_entries<V1, V2>(s: Seq<(Ident, V1)>, other: Seq<(Ident, V2)>) -> Seq<
    (Ident, V1),
>
    decreases s.len(),
{
    if s.len() == 0 {
        Seq::empty()
    } else {
        let rest = left_entries(s.drop_last(), other);
        if !seq_has_sym(other, s.last().0.sym) {
            rest.push(s.last())
        } else {
            rest
        }
    }
}

/// Outcome of [`split`]: bindings only in the first map, bindings in both, and
/// bindings only in the second map.
pub struct SplitResult<V1, V2> {
    pub left: IndexMap<V1>,
    pub center: IndexMap<(V1, V2)>,
    pub right: IndexMap<V2>,
}

/// Split two maps `m1` and `m2` in three parts `(left, center, right)`:
/// `left` holds the bindings of `m1` whose key is not bound by `m2`, `right`
/// the bindings of `m2` whose key is not bound by `m1`, and `center` binds
/// every key bound by both to the pair of its two values.
pub fn split<V1, V2>(m1: IndexMap<V1>, m2: IndexMap<V2>) -> (r: SplitResult<V1, V2>)
    requires
        m1.wf(),
        m2.wf(),
    ensures
        r.left.wf(),
        r.center.wf(),
        r.right.wf(),
        forall|s: usize|
            #[trigger] r.left.contains_sym(s) <==> (m1.contains_sym(s) && !m2.contains_sym(s)),
        forall|s: usize|
            #[trigger] r.center.contains_sym(s) <==> (m1.contains_sym(s) && m2.contains_sym(s)),
        forall|s: usize|
            #[trigger] r.right.contains_sym(s) <==> (m2.contains_sym(s) && !m1.contains_sym(s)),
        forall|s: usize, v: V1| #[trigger] r.left.maps_to(s, v) ==> m1.maps_to(s, v),
        forall|s: usize, p: (V1, V2)| #[trigger]
            r.center.maps_to(s, p) ==> (m1.maps_to(s, p.0) && m2.maps_to(s, p.1)),
        forall|s: usize, v: V2| #[trigger] r.right.maps_to(s, v) ==> m2.maps_to(s, v),
        r.left.entries@ == left_entries(m1.entries@, m2.entries@),
{
    let ghost gm1 = m1;
    let ghost gm2 = m2;
    let mut m1 = m1;
    let mut m2 = m2;
    let mut left: IndexMap<V1> = IndexMap::new();
    let mut center: IndexMap<(V1, V2)> = IndexMap::new();
    let ghost mut done: int = 0;
    while m1.len() > 0
        invariant
            gm1.wf(),
            gm2.wf(),
            m1.wf(),
            m2.wf(),
            left.wf(),
            center.wf(),
            0 <= done <= gm1.entries@.len(),
            m1.entries@ == gm1.entries@.skip(done),
            forall|s: usize|
                #[trigger] left.contains_sym(s) <==> (seq_has_sym(gm1.entries@.take(done), s)
                    && !gm2.contains_sym(s)),
            forall|s: usize|
                #[trigger] center.contains_sym(s) <==> (seq_has_sym(gm1.entries@.take(done), s)
                    && gm2.contains_sym(s)),
            forall|s: usize|
                #[trigger] m2.contains_sym(s) <==> (gm2.contains_sym(s) && !seq_has_sym(
                    gm1.entries@.take(done),
                    s,
                )),
            forall|s: usize, v: V1| #[trigger] left.maps_to(s, v) ==> seq_binds(gm1.entries@, s, v),
            forall|s: usize, p: (V1, V2)| #[trigger]
                center.maps_to(s, p) ==> (seq_binds(gm1.entries@, s, p.0) && gm2.maps_to(s, p.1)),
            forall|s: usize, v: V2| #[trigger] m2.maps_to(s, v) ==> gm2.maps_to(s, v),
            left.entries@ == left_entries(gm1.entries@.take(done), gm2.entries@),
        decreases m1.entries@.len(),
    {
        let pair = m1.take_first();
        proof {
            assert(pair == gm1.entries@[done]);
            assert(gm1.entries@.take(done + 1) =~= gm1.entries@.take(done).push(pair));
            assert(m1.entries@ =~= gm1.entries@.skip(done + 1));
            // The key at position `done` has not been seen before.
            assert(!seq_has_sym(gm1.entries@.take(done), pair.0.sym)) by {
                if seq_has_sym(gm1.entries@.take(done), pair.0.sym) {
                    let j = choose|j: int|
                        0 <= j < gm1.entries@.take(done).len() && (#[trigger] gm1.entries@.take(
                            done,
                        )[j]).0.sym == pair.0.sym;
                    assert(gm1.entries@[j].0.sym == gm1.entries@[done].0.sym);
                }
            }
        }
        let ghost m2_before = m2;
        let removed = m2.remove(pair.0);
        proof {
            assert(seq_binds(gm1.entries@, pair.0.sym, pair.1)) by {
                assert(gm1.entries@[done].0.sym == pair.0.sym);
            }
        }
        match removed {
            Some(v2) => {
                let ghost c0 = center;
                center.insert(pair.0, (pair.1, v2));
                proof {
                    let ghost e = (pair.0, (pair.1, v2));
                    lemma_push_syms(c0.entries@, e);
                    lemma_push_syms(gm1.entries@.take(done), pair);
                    assert(center.entries@ == c0.entries@.push(e));
                    assert(gm2.contains_sym(pair.0.sym));
                    let i = choose|i: int|
                        0 <= i < m2_before.entries@.len() && (
                        #[trigger] m2_before.entries@[i]).0.sym == pair.0.sym && removed == Some(
                            m2_before.entries@[i].1,
                        ) && m2.entries@ == m2_before.entries@.remove(i);
                    assert(m2_before.entries@[i].1 == v2);
                    assert(m2_before.maps_to(pair.0.sym, v2));
                    assert(gm2.maps_to(pair.0.sym, v2));
                    assert forall|s: usize|
                        #[trigger] center.contains_sym(s) <==> (seq_has_sym(
                        gm1.entries@.take(done + 1),
                        s,
                    ) && gm2.contains_sym(s)) by {
                        assert(seq_has_sym(c0.entries@.push(e), s) <==> (seq_has_sym(
                            c0.entries@,
                            s,
                        ) || e.0.sym == s));
                        assert(c0.contains_sym(s) <==> (seq_has_sym(gm1.entries@.take(done), s)
                            && gm2.contains_sym(s)));
                        assert(seq_has_sym(gm1.entries@.take(done).push(pair), s) <==> (
                        seq_has_sym(gm1.entries@.take(done), s) || pair.0.sym == s));
                    }
                    assert forall|s: usize|
                        #[trigger] left.contains_sym(s) <==> (seq_has_sym(
                        gm1.entries@.take(done + 1),
                        s,
                    ) && !gm2.contains_sym(s)) by {
                        assert(left.contains_sym(s) <==> (seq_has_sym(gm1.entries@.take(done), s)
                            && !gm2.contains_sym(s)));
                        assert(seq_has_sym(gm1.entries@.take(done).push(pair), s) <==> (
                        seq_has_sym(gm1.entries@.take(done), s) || pair.0.sym == s));
                    }
                    assert forall|s: usize|
                        #[trigger] m2.contains_sym(s) <==> (gm2.contains_sym(s) && !seq_has_sym(
                        gm1.entries@.take(done + 1),
                        s,
                    )) by {
                        assert(m2_before.contains_sym(s) <==> (gm2.contains_sym(s)
                            && !seq_has_sym(gm1.entries@.take(done), s)));
                        assert(seq_has_sym(gm1.entries@.take(done).push(pair), s) <==> (
                        seq_has_sym(gm1.entries@.take(done), s) || pair.0.sym == s));
                    }
                    assert(left.entries@ == left_entries(
                        gm1.entries@.take(done + 1),
                        gm2.entries@,
                    )) by {
                        assert(gm1.entries@.take(done + 1).drop_last() =~= gm1.entries@.take(
                            done,
                        ));
                        assert(gm1.entries@.take(done + 1).last() == pair);
                        assert(gm2.contains_sym(pair.0.sym));
                    }
                    assert forall|s: usize, p: (V1, V2)| #[trigger]
                        center.maps_to(s, p) implies (seq_binds(gm1.entries@, s, p.0)
                        && gm2.maps_to(s, p.1)) by {
                        assert(seq_binds(c0.entries@.push(e), s, p) <==> (seq_binds(
                            c0.entries@,
                            s,
                            p,
                        ) || (e.0.sym == s && e.1 == p)));
                        if !c0.maps_to(s, p) {
                            assert(s == pair.0.sym && p == (pair.1, v2));
                        }
                    }
                }
            },
            None => {
                let ghost l0 = left;
                left.insert(pair.0, pair.1);
                proof {
                    let ghost e = (pair.0, pair.1);
                    lemma_push_syms(l0.entries@, e);
                    lemma_push_syms(gm1.entries@.take(done), pair);
                    assert(left.entries@ == l0.entries@.push(e));
                    assert(!m2_before.contains_sym(pair.0.sym));
                    assert(!gm2.contains_sym(pair.0.sym)) by {
                        assert(m2_before.contains_sym(pair.0.sym) <==> (gm2.contains_sym(
                            pair.0.sym,
                        ) && !seq_has_sym(gm1.entries@.take(done), pair.0.sym)));
                    }
                    assert forall|s: usize|
                        #[trigger] left.contains_sym(s) <==> (seq_has_sym(
                        gm1.entries@.take(done + 1),
                        s,
                    ) && !gm2.contains_sym(s)) by {
                        assert(seq_has_sym(l0.entries@.push(e), s) <==> (seq_has_sym(
                            l0.entries@,
                            s,
                        ) || e.0.sym == s));
                        assert(l0.contains_sym(s) <==> (seq_has_sym(gm1.entries@.take(done), s)
                            && !gm2.contains_sym(s)));
                        assert(seq_has_sym(gm1.entries@.take(done).push(pair), s) <==> (
                        seq_has_sym(gm1.entries@.take(done), s) || pair.0.sym == s));
                    }
                    assert forall|s: usize|
                        #[trigger] center.contains_sym(s) <==> (seq_has_sym(
                        gm1.entries@.take(done + 1),
                        s,
                    ) && gm2.contains_sym(s)) by {
                        assert(center.contains_sym(s) <==> (seq_has_sym(
                            gm1.entries@.take(done),
                            s,
                        ) && gm2.contains_sym(s)));
                        assert(seq_has_sym(gm1.entries@.take(done).push(pair), s) <==> (
                        seq_has_sym(gm1.entries@.take(done), s) || pair.0.sym == s));
                    }
                    assert forall|s: usize|
                        #[trigger] m2.contains_sym(s) <==> (gm2.contains_sym(s) && !seq_has_sym(
                        gm1.entries@.take(done + 1),
                        s,
                    )) by {
                        assert(m2_before.contains_sym(s) <==> (gm2.contains_sym(s)
                            && !seq_has_sym(gm1.entries@.take(done), s)));
                        assert(m2.entries@ == m2_before.entries@);
                        assert(seq_has_sym(gm1.entries@.take(done).push(pair), s) <==> (
                        seq_has_sym(gm1.entries@.take(done), s) || pair.0.sym == s));
                    }
                    assert(left.entries@ == left_entries(
                        gm1.entries@.take(done + 1),
                        gm2.entries@,
                    )) by {
                        assert(gm1.entries@.take(done + 1).drop_last() =~= gm1.entries@.take(
                            done,
                        ));
                        assert(gm1.entries@.take(done + 1).last() == pair);
                        assert(!gm2.contains_sym(pair.0.sym));
                        assert(left.entries@ == l0.entries@.push(pair));
                    }
                    assert forall|s: usize, v: V1| #[trigger]
                        left.maps_to(s, v) implies seq_binds(gm1.entries@, s, v) by {
                        assert(seq_binds(l0.entries@.push(e), s, v) <==> (seq_binds(
                            l0.entries@,
                            s,
                            v,
                        ) || (e.0.sym == s && e.1 == v)));
                        if !l0.maps_to(s, v) {
                            assert(s == pair.0.sym && v == pair.1);
                        }
                    }
                }
            },
        }
        proof {
            done = done + 1;
        }
    }
    proof {
        assert(gm1.entries@.take(done) =~= gm1.entries@);
        assert(forall|s: usize|
            #[trigger] gm1.contains_sym(s) <==> seq_has_sym(gm1.entries@.take(done), s));
    }
    SplitResult { left, center, right: m2 }
}

} // verus!
