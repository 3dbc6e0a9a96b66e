//! A small verified dictionary backed by a vector of key/value entries.
//!
//! The engine keys all of its stores (entities, counters, GPU resource
//! tables, uniform stores) by small handle-like values, so a linear table
//! with a mathematical `Map` view is enough, and every operation carries a
//! full functional contract.

use vstd::prelude::*;

verus! {

/// Executable equality for key types whose comparison decides mathematical
/// (structural) equality of the values.
pub trait KeyEq: Sized {
    fn key_eq(&self, other: &Self) -> (r: bool)
        ensures
            r == (self == other);
}

impl KeyEq for u32 {
    fn key_eq(&self, other: &Self) -> (r: bool)
        ensures
            r == (self == other),
    {
        *self == *other
    }
}

impl KeyEq for u64 {
    fn key_eq(&self, other: &Self) -> (r: bool)
        ensures
            r == (self == other),
    {
        *self == *other
    }
}

impl KeyEq for i32 {
    fn key_eq(&self, other: &Self) -> (r: bool)
        ensures
            r == (self == other),
    {
        *self == *other
    }
}

impl KeyEq for i64 {
    fn key_eq(&self, other: &Self) -> (r: bool)
        ensures
            r == (self == other),
    {
        *self == *other
    }
}

/// `m` with `k` bound to the value in `v`, if `v` holds one; `m` unchanged
/// otherwise.
pub open spec fn opt_insert<K, V>(m: Map<K, V>, k: K, v: Option<V>) -> Map<K, V> {
    match v {
        Some(x) => m.insert(k, x),
        None => m,
    }
}

/// The value stored for `k` in an entry sequence: the first entry whose key
/// is `k`, if any.
pub open spec fn kv_lookup<K, V>(s: Seq<(K, V)>, k: K) -> Option<V>
    decreases s.len(),
{
    if s.len() == 0 {
        None
    } else if s[0].0 == k {
        Some(s[0].1)
    } else {
        kv_lookup(s.drop_first(), k)
    }
}

/// A dictionary with stable insertion order and a `Map` view. Keys and
/// values live in two vectors of equal length, entry `i` being the pair
/// `(keys[i], vals[i])`; keeping the keys apart lets a caller borrow one
/// value mutably while the key set provably stands still.
pub struct Table<K, V> {
    inner: TableInner<K, V>,
}

struct TableInner<K, V> {
    keys: Vec<K>,
    vals: Vec<V>,
}

impl<K, V> TableInner<K, V> {
    spec fn kvs(&self) -> Seq<(K, V)> {
        Seq::new(self.keys@.len(), |i: int| (self.keys@[i], self.vals@[i]))
    }
}

/// The dictionary an entry sequence denotes: each key maps to the value
/// of its first entry.
pub open spec fn kvs_view<K, V>(s: Seq<(K, V)>) -> Map<K, V> {
    Map::new(|k: K| kv_lookup(s, k) is Some, |k: K| kv_lookup(s, k).unwrap())
}

impl<K, V> View for Table<K, V> {
    type V = Map<K, V>;

    open spec fn view(&self) -> Map<K, V> {
        kvs_view(self.kvs())
    }
}

pub(crate) proof fn lemma_lookup_found<K, V>(s: Seq<(K, V)>, k: K, i: int)
    requires
        0 <= i < s.len(),
        s[i].0 == k,
        forall|j: int| 0 <= j < i ==> s[j].0 != k,
    ensures
        kv_lookup(s, k) == Some(s[i].1),
    decreases i,
{
    if i > 0 {
        assert(s.drop_first()[i - 1] == s[i]);
        assert(forall|j: int| 0 <= j < i - 1 ==> s.drop_first()[j] == s[j + 1]);
        lemma_lookup_found(s.drop_first(), k, i - 1);
    }
}

pub(crate) proof fn lemma_lookup_none<K, V>(s: Seq<(K, V)>, k: K)
    requires
        forall|j: int| 0 <= j < s.len() ==> s[j].0 != k,
    ensures
        kv_lookup(s, k) is None,
    decreases s.len(),
{
    if s.len() > 0 {
        assert(forall|j: int| 0 <= j < s.len() - 1 ==> s.drop_first()[j] == s[j + 1]);
        lemma_lookup_none(s.drop_first(), k);
    }
}

pub(crate) proof fn lemma_lookup_some_index<K, V>(s: Seq<(K, V)>, k: K)
    requires
        kv_lookup(s, k) is Some,
    ensures
        exists|i: int|
            0 <= i < s.len() && (#[trigger] s[i]).0 == k && s[i].1 == kv_lookup(s, k).unwrap(),
    decreases s.len(),
{
    if s.len() > 0 {
        if s[0].0 == k {
            assert(s[0].0 == k && s[0].1 == kv_lookup(s, k).unwrap());
        } else {
            lemma_lookup_some_index(s.drop_first(), k);
            let i = choose|i: int|
                0 <= i < s.drop_first().len() && (#[trigger] s.drop_first()[i]).0 == k
                    && s.drop_first()[i].1 == kv_lookup(s.drop_first(), k).unwrap();
            assert(s[i + 1] == s.drop_first()[i]);
        }
    }
}

pub(crate) proof fn lemma_lookup_update<K, V>(s: Seq<(K, V)>, i: int, k: K, v: V, k2: K)
    requires
        0 <= i < s.len(),
        s[i].0 == k,
        k2 != k,
    ensures
        kv_lookup(s.update(i, (k, v)), k2) == kv_lookup(s, k2),
    decreases i,
{
    let s2 = s.update(i, (k, v));
    if i == 0 {
        assert(s2.drop_first() =~= s.drop_first());
    } else {
        assert(s2[0] == s[0]);
        if s[0].0 == k2 {
        } else {
            assert(s2.drop_first() =~= s.drop_first().update(i - 1, (k, v)));
            lemma_lookup_update(s.drop_first(), i - 1, k, v, k2);
        }
    }
}

pub(crate) proof fn lemma_lookup_push<K, V>(s: Seq<(K, V)>, k: K, v: V, k2: K)
    ensures
        kv_lookup(s.push((k, v)), k2) == (if kv_lookup(s, k2) is Some {
            kv_lookup(s, k2)
        } else if k2 == k {
            Some(v)
        } else {
            None::<V>
        }),
    decreases s.len(),
{
    if s.len() == 0 {
        let s2 = s.push((k, v));
        assert(s2[0] == (k, v));
        if k2 != k {
            assert(forall|j: int| 0 <= j < s2.len() ==> s2[j].0 != k2);
            lemma_lookup_none(s2, k2);
        }
    } else {
        assert(s.push((k, v))[0] == s[0]);
        if s[0].0 == k2 {
        } else {
            assert(s.push((k, v)).drop_first() =~= s.drop_first().push((k, v)));
            lemma_lookup_push(s.drop_first(), k, v, k2);
        }
    }
}

pub(crate) proof fn lemma_lookup_removed<K, V>(s: Seq<(K, V)>, i: int, k2: K)
    requires
        0 <= i < s.len(),
        forall|m: int, n: int|
            0 <= m < n < s.len() ==> (#[trigger] s[m]).0 != (#[trigger] s[n]).0,
    ensures
        kv_lookup(s.remove(i), k2) == (if k2 == s[i].0 {
            None::<V>
        } else {
            kv_lookup(s, k2)
        }),
    decreases i,
{
    let s2 = s.remove(i);
    if i == 0 {
        assert(s2 =~= s.drop_first());
        if k2 == s[0].0 {
            assert(forall|j: int| 0 <= j < s2.len() ==> s2[j] == s[j + 1]);
            lemma_lookup_none(s2, k2);
        }
    } else {
        assert(s2[0] == s[0]);
        if s[0].0 == k2 {
        } else {
            assert(s2.drop_first() =~= s.drop_first().remove(i - 1));
            assert(forall|j: int| 0 <= j < s.len() - 1 ==> s.drop_first()[j] == s[j + 1]);
            lemma_lookup_removed(s.drop_first(), i - 1, k2);
        }
    }
}

impl<K, V> Table<K, V> {
    /// The key/value entries, in insertion order.
    pub closed spec fn kvs(&self) -> Seq<(K, V)> {
        self.inner.kvs()
    }

    #[verifier::type_invariant]
    spec fn inv(self) -> bool {
        &&& self.inner.keys@.len() == self.inner.vals@.len()
        &&& forall|i: int, j: int|
            0 <= i < j < self.inner.keys@.len() ==> (#[trigger] self.inner.keys@[i]) != (
            #[trigger] self.inner.keys@[j])
    }

    /// An empty table.
    pub fn new() -> (r: Table<K, V>)
        ensures
            r@ == Map::<K, V>::empty(),
            r.kvs() == Seq::<(K, V)>::empty(),
    {
        let r = Table { inner: TableInner { keys: Vec::new(), vals: Vec::new() } };
        proof {
            assert(r.kvs() =~= Seq::<(K, V)>::empty());
            assert(r@ =~= Map::<K, V>::empty());
        }
        r
    }

    /// How many entries the table holds.
    pub fn len(&self) -> (r: usize)
        ensures
            r == self.kvs().len(),
    {
        self.inner.keys.len()
    }
}

impl<K: Copy, V> Table<K, V> {
    /// The entry at position `i`, in insertion order.
    pub fn get_index(&self, i: usize) -> (r: (K, &V))
        requires
            i < self.kvs().len(),
        ensures
            r.0 == self.kvs()[i as int].0,
            *r.1 == self.kvs()[i as int].1,
            self@.dom().contains(self.kvs()[i as int].0),
            self@[self.kvs()[i as int].0] == self.kvs()[i as int].1,
    {
        proof {
            use_type_invariant(self);
            lemma_lookup_found(self.kvs(), self.kvs()[i as int].0, i as int);
        }
        (self.inner.keys[i], &self.inner.vals[i])
    }
}

impl<K: KeyEq, V> Table<K, V> {
    fn index_of(&self, k: &K) -> (r: Option<usize>)
        ensures
            match r {
                Some(i) => i < self.kvs().len() && self.kvs()[i as int].0 == *k && (forall|j: int|
                    0 <= j < i ==> (#[trigger] self.kvs()[j]).0 != *k),
                None => forall|j: int|
                    0 <= j < self.kvs().len() ==> (#[trigger] self.kvs()[j]).0 != *k,
            },
    {
        let mut i: usize = 0;
        while i < self.inner.keys.len()
            invariant
                i <= self.inner.keys@.len(),
                forall|j: int| 0 <= j < i ==> (#[trigger] self.inner.keys@[j]) != *k,
            decreases self.inner.keys@.len() - i,
        {
            let key = &self.inner.keys[i];
            if key.key_eq(k) {
                return Some(i);
            }
            i = i + 1;
        }
        None
    }

    /// Whether the table holds an entry for `k`.
    pub fn contains_key(&self, k: &K) -> (r: bool)
        ensures
            r == self@.dom().contains(*k),
    {
        proof {
            use_type_invariant(self);
        }
        match self.index_of(k) {
            Some(i) => {
                proof {
                    lemma_lookup_found(self.kvs(), *k, i as int);
                }
                true
            },
            None => {
                proof {
                    lemma_lookup_none(self.kvs(), *k);
                }
                false
            },
        }
    }

    /// The value stored for `k`, if any.
    pub fn get(&self, k: &K) -> (r: Option<&V>)
        ensures
            match r {
                Some(v) => self@.dom().contains(*k) && *v == self@[*k],
                None => !self@.dom().contains(*k),
            },
    {
        proof {
            use_type_invariant(self);
        }
        match self.index_of(k) {
            Some(i) => {
                proof {
                    lemma_lookup_found(self.kvs(), *k, i as int);
                }
                Some(&self.inner.vals[i])
            },
            None => {
                proof {
                    lemma_lookup_none(self.kvs(), *k);
                }
                None
            },
        }
    }

    /// Exclusive access to the value stored for `k`, if any. The keys and
    /// their order stand still, however the caller alters the value.
    pub fn get_mut(&mut self, k: &K) -> (r: Option<&mut V>)
        ensures
            match r {
                Some(v) => {
                    &&& old(self)@.dom().contains(*k)
                    &&& *v == old(self)@[*k]
                    &&& final(self)@ == old(self)@.insert(*k, *final(v))
                    &&& final(self).kvs().len() == old(self).kvs().len()
                    &&& forall|i: int|
                        0 <= i < old(self).kvs().len() ==> (#[trigger] final(self).kvs()[i]).0
                            == old(self).kvs()[i].0
                },
                None => {
                    &&& !old(self)@.dom().contains(*k)
                    &&& *final(self) == *old(self)
                },
            },
    {
        proof {
            use_type_invariant(&*self);
        }
        let ghost old_kvs = self.kvs();
        match self.index_of(k) {
            Some(i) => {
                proof {
                    lemma_lookup_found(old_kvs, *k, i as int);
                    assert forall|s2: Seq<(K, V)>, k2: K|
                        s2.len() == old_kvs.len() && s2[i as int].0 == *k && (forall|j: int|
                            0 <= j < s2.len() && j != i ==> #[trigger] s2[j] == old_kvs[j])
                        implies #[trigger] kv_lookup(s2, k2) == (if k2 == *k {
                        Some(s2[i as int].1)
                    } else {
                        kv_lookup(old_kvs, k2)
                    }) by {
                        if k2 == *k {
                            lemma_lookup_found(s2, *k, i as int);
                        } else {
                            assert(s2 =~= old_kvs.update(i as int, (*k, s2[i as int].1)));
                            lemma_lookup_update(old_kvs, i as int, *k, s2[i as int].1, k2);
                        }
                    }
                }
                Some(&mut self.inner.vals[i])
            },
            None => {
                proof {
                    lemma_lookup_none(old_kvs, *k);
                }
                None
            },
        }
    }

    /// Stores `v` for `k`, overwriting any earlier value for the same key.
    /// A fresh key goes to the end of the entry order; an overwritten key
    /// keeps its position.
    pub fn insert(&mut self, k: K, v: V)
        ensures
            final(self)@ == old(self)@.insert(k, v),
            old(self)@.dom().contains(k) ==> final(self).kvs().len() == old(self).kvs().len(),
            !old(self)@.dom().contains(k) ==> final(self).kvs() == old(self).kvs().push((k, v)),
            forall|i: int|
                0 <= i < old(self).kvs().len() ==> (#[trigger] final(self).kvs()[i]).0 == old(
                self).kvs()[i].0,
    {
        proof {
            use_type_invariant(&*self);
        }
        let ghost old_kvs = self.kvs();
        let idx = self.index_of(&k);
        match idx {
            Some(i) => {
                proof {
                    lemma_lookup_found(old_kvs, k, i as int);
                }
                self.inner.vals[i] = v;
                proof {
                    assert(self.kvs() =~= old_kvs.update(i as int, (k, v)));
                    assert forall|k2: K| k2 != k implies kv_lookup(self.kvs(), k2) == kv_lookup(
                        old_kvs,
                        k2,
                    ) by {
                        lemma_lookup_update(old_kvs, i as int, k, v, k2);
                    }
                    lemma_lookup_found(self.kvs(), k, i as int);
                    assert(self@ =~= old(self)@.insert(k, v));
                }
            },
            None => {
                let mut inner = TableInner { keys: Vec::new(), vals: Vec::new() };
                core::mem::swap(&mut inner, &mut self.inner);
                let ghost old_keys = inner.keys@;
                inner.keys.push(k);
                inner.vals.push(v);
                proof {
                    assert forall|m: int, n: int|
                        0 <= m < n < inner.keys@.len() implies (#[trigger] inner.keys@[m]) != (
                        #[trigger] inner.keys@[n]) by {
                        if n == old_keys.len() {
                            assert(old_kvs[m].0 == old_keys[m]);
                            assert(inner.keys@[n] == k);
                        }
                    }
                }
                self.inner = inner;
                proof {
                    assert(self.kvs() =~= old_kvs.push((k, v)));
                    lemma_lookup_none(old_kvs, k);
                    assert forall|k2: K| true implies kv_lookup(self.kvs(), k2) == (
                    if kv_lookup(old_kvs, k2) is Some {
                        kv_lookup(old_kvs, k2)
                    } else if k2 == k {
                        Some(v)
                    } else {
                        None::<V>
                    }) by {
                        lemma_lookup_push(old_kvs, k, v, k2);
                    }
                    assert(self@ =~= old(self)@.insert(k, v));
                }
            },
        }
    }

    /// Removes and returns the value stored for `k`, if any.
    pub fn remove(&mut self, k: &K) -> (r: Option<V>)
        ensures
            final(self)@ == old(self)@.remove(*k),
            match r {
                Some(v) => old(self)@.dom().contains(*k) && v == old(self)@[*k] && final(self).kvs().len() + 1 == old(self).kvs().len(),
                None => !old(self)@.dom().contains(*k) && final(self).kvs() == old(self).kvs(),
            },
    {
        proof {
            use_type_invariant(&*self);
        }
        let ghost old_kvs = self.kvs();
        let idx = self.index_of(k);
        match idx {
            Some(i) => {
                proof {
                    lemma_lookup_found(old_kvs, *k, i as int);
                }
                let mut inner = TableInner { keys: Vec::new(), vals: Vec::new() };
                core::mem::swap(&mut inner, &mut self.inner);
                let ghost old_keys = inner.keys@;
                inner.keys.remove(i);
                let removed = inner.vals.remove(i);
                proof {
                    assert forall|m: int, n: int|
                        0 <= m < n < inner.keys@.len() implies (#[trigger] inner.keys@[m]) != (
                        #[trigger] inner.keys@[n]) by {
                        assert(inner.keys@[m] == (if m < i {
                            old_keys[m]
                        } else {
                            old_keys[m + 1]
                        }));
                        assert(inner.keys@[n] == (if n < i {
                            old_keys[n]
                        } else {
                            old_keys[n + 1]
                        }));
                    }
                }
                self.inner = inner;
                proof {
                    assert(self.kvs() =~= old_kvs.remove(i as int));
                    assert forall|k2: K| true implies kv_lookup(self.kvs(), k2) == (
                    if k2 == old_kvs[i as int].0 {
                        None::<V>
                    } else {
                        kv_lookup(old_kvs, k2)
                    }) by {
                        lemma_lookup_removed(old_kvs, i as int, k2);
                    }
                    assert(self@ =~= old(self)@.remove(*k));
                }
                Some(removed)
            },
            None => {
                proof {
                    lemma_lookup_none(old_kvs, *k);
                    assert(self@ =~= old(self)@.remove(*k));
                }
                None
            },
        }
    }
}

impl<K: KeyEq + Copy, V> Table<K, V> {
    /// All keys, in entry order. The keys are pairwise distinct and each is
    /// in the table's domain.
    pub fn keys(&self) -> (r: Vec<K>)
        ensures
            r@.len() == self.kvs().len(),
            forall|i: int| 0 <= i < r@.len() ==> r@[i] == (#[trigger] self.kvs()[i]).0,
            forall|i: int, j: int| 0 <= i < j < r@.len() ==> r@[i] != r@[j],
            forall|i: int| 0 <= i < r@.len() ==> self@.dom().contains(#[trigger] r@[i]),
    {
        let mut out: Vec<K> = Vec::new();
        let mut i: usize = 0;
        while i < self.inner.keys.len()
            invariant
                i <= self.inner.keys@.len(),
                out@.len() == i,
                forall|j: int| 0 <= j < i ==> out@[j] == (#[trigger] self.inner.keys@[j]),
            decreases self.inner.keys@.len() - i,
        {
            out.push(self.inner.keys[i]);
            i = i + 1;
        }
        proof {
            use_type_invariant(self);
            assert forall|m: int, n: int| 0 <= m < n < out@.len() implies out@[m] != out@[n] by {
                assert(self.inner.keys@[m] != self.inner.keys@[n]);
            }
            assert forall|m: int| 0 <= m < out@.len() implies self@.dom().contains(
                #[trigger] out@[m]) by {
                lemma_lookup_found(self.kvs(), self.inner.keys@[m], m);
            }
        }
        out
    }
}

} // verus!
