use vstd::prelude::*;

verus! {

/// Compares two string slices character by character.
pub fn str_eq(a: &str, b: &str) -> (r: bool)
    ensures
        r == (a@ == b@),
{
    let alen = a.unicode_len();
    let blen = b.unicode_len();
    if alen != blen {
        return false;
    }
    let mut i: usize = 0;
    while i < alen
        invariant
            i <= alen,
            alen == a@.len(),
            blen == b@.len(),
            alen == blen,
            forall|j: int| 0 <= j < i ==> a@[j] == b@[j],
        decreases alen - i,
    {
        if a.get_char(i) != b.get_char(i) {
            return false;
        }
        i = i + 1;
    }
    proof {
        assert(a@ =~= b@);
    }
    true
}

/// What a bounded store holds, as an association sequence in insertion order:
/// earliest-inserted key first.
pub open spec fn lookup<V>(m: Seq<(Seq<char>, V)>, k: Seq<char>) -> Option<V>
    decreases m.len(),
{
    if m.len() == 0 {
        None
    } else if m[0].0 == k {
        Some(m[0].1)
    } else {
        lookup(m.drop_first(), k)
    }
}

pub open spec fn has_key<V>(m: Seq<(Seq<char>, V)>, k: Seq<char>) -> bool {
    lookup(m, k) is Some
}

/// Index of the entry holding key `k`, meaningful only when `has_key(m, k)`.
pub open spec fn index_of_key<V>(m: Seq<(Seq<char>, V)>, k: Seq<char>) -> int
    decreases m.len(),
{
    if m.len() == 0 {
        0
    } else if m[0].0 == k {
        0
    } else {
        1 + index_of_key(m.drop_first(), k)
    }
}

/// The association sequence after a `put`: overwrite in place when the key is
/// present; otherwise append, evicting the earliest-inserted entry first when
/// the store is full.
pub open spec fn put<V>(m: Seq<(Seq<char>, V)>, cap: int, k: Seq<char>, v: V) -> Seq<
    (Seq<char>, V),
> {
    if has_key(m, k) {
        m.update(index_of_key(m, k), (k, v))
    } else if m.len() < cap {
        m.push((k, v))
    } else {
        m.drop_first().push((k, v))
    }
}

/// Keys are pairwise distinct and the bound is respected.
pub open spec fn model_wf<V>(m: Seq<(Seq<char>, V)>, cap: int) -> bool {
    &&& m.len() <= cap
    &&& forall|i: int, j: int| 0 <= i < j < m.len() ==> m[i].0 != m[j].0
}

/// Where a key is present: its entry index, its value, and that no earlier
/// entry holds the key; where absent: no entry holds it.
pub proof fn lemma_lookup_props<V>(m: Seq<(Seq<char>, V)>, k: Seq<char>)
    ensures
        has_key(m, k) ==> {
            let i = index_of_key(m, k);
            &&& 0 <= i < m.len()
            &&& m[i].0 == k
            &&& lookup(m, k) == Some(m[i].1)
            &&& forall|j: int| 0 <= j < i ==> m[j].0 != k
        },
        !has_key(m, k) ==> forall|j: int| 0 <= j < m.len() ==> m[j].0 != k,
    decreases m.len(),
{
    if m.len() > 0 && m[0].0 != k {
        let t = m.drop_first();
        lemma_lookup_props(t, k);
        assert(forall|j: int| 0 <= j < t.len() ==> t[j] == m[j + 1]);
        if has_key(m, k) {
            let i = index_of_key(m, k);
            assert(i == 1 + index_of_key(t, k));
            assert(m[i].0 == t[i - 1].0);
            assert forall|j: int| 0 <= j < i implies m[j].0 != k by {
                if j > 0 {
                    assert(t[j - 1].0 != k);
                }
            }
        } else {
            assert forall|j: int| 0 <= j < m.len() implies m[j].0 != k by {
                if j > 0 {
                    assert(t[j - 1].0 != k);
                }
            }
        }
    }
}

proof fn lemma_lookup_at_index<V>(m: Seq<(Seq<char>, V)>, i: int)
    requires
        0 <= i < m.len(),
        forall|j: int| 0 <= j < i ==> m[j].0 != m[i].0,
    ensures
        lookup(m, m[i].0) == Some(m[i].1),
        index_of_key(m, m[i].0) == i,
    decreases m.len(),
{
    if i > 0 {
        lemma_lookup_at_index(m.drop_first(), i - 1);
    }
}

proof fn lemma_lookup_absent<V>(m: Seq<(Seq<char>, V)>, k: Seq<char>)
    requires
        forall|j: int| 0 <= j < m.len() ==> m[j].0 != k,
    ensures
        !has_key(m, k),
    decreases m.len(),
{
    if m.len() > 0 {
        lemma_lookup_absent(m.drop_first(), k);
    }
}

/// A bounded string-keyed store with first-in-first-out eviction: when an
/// insert of a fresh key would exceed the capacity, the earliest-inserted
/// entry is removed first. Overwriting an existing key never evicts.
pub struct Cache<T> {
    entries: Vec<(String, T)>,
    capacity: usize,
}

impl<T: DeepView> Cache<T> {
    /// The store as an association sequence over mathematical values.
    pub closed spec fn model(self) -> Seq<(Seq<char>, T::V)> {
        self.entries@.map_values(|p: (String, T)| (p.0@, p.1.deep_view()))
    }

    pub closed spec fn spec_capacity(self) -> int {
        self.capacity as int
    }

    pub open spec fn wf(self) -> bool {
        &&& self.spec_capacity() >= 1
        &&& model_wf(self.model(), self.spec_capacity())
    }

    pub fn new() -> (r: Cache<T>)
        ensures
            r.wf(),
            r.model() == Seq::<(Seq<char>, T::V)>::empty(),
            r.spec_capacity() == 10,
    {
        let r = Cache { entries: Vec::new(), capacity: 10 };
        proof {
            assert(r.model() =~= Seq::<(Seq<char>, T::V)>::empty());
        }
        r
    }

    /// The bound is a configuration choice; ten is the default.
    pub fn with_capacity(capacity: usize) -> (r: Cache<T>)
        requires
            capacity >= 1,
        ensures
            r.wf(),
            r.model() == Seq::<(Seq<char>, T::V)>::empty(),
            r.spec_capacity() == capacity,
    {
        let r = Cache { entries: Vec::new(), capacity };
        proof {
            assert(r.model() =~= Seq::<(Seq<char>, T::V)>::empty());
        }
        r
    }

    pub fn len(&self) -> (n: usize)
        ensures
            n == self.model().len(),
    {
        self.entries.len()
    }

    /// Index of the entry holding `key`, if any.
    fn find(&self, key: &str) -> (r: Option<usize>)
        ensures
            match r {
                Some(i) => {
                    &&& has_key(self.model(), key@)
                    &&& index_of_key(self.model(), key@) == i as int
                    &&& i < self.model().len()
                },
                None => !has_key(self.model(), key@),
            },
    {
        let n = self.entries.len();
        let mut i: usize = 0;
        while i < n
            invariant
                i <= n,
                n == self.model().len(),
                forall|j: int| 0 <= j < i ==> self.model()[j].0 != key@,
            decreases n - i,
        {
            if str_eq(self.entries[i].0.as_str(), key) {
                proof {
                    lemma_lookup_at_index(self.model(), i as int);
                }
                return Some(i);
            }
            i = i + 1;
        }
        proof {
            lemma_lookup_absent(self.model(), key@);
        }
        None
    }

    pub fn contains_key(&self, key: &str) -> (r: bool)
        ensures
            r == has_key(self.model(), key@),
    {
        self.find(key).is_some()
    }

    /// Returns the entry stored under `key`, if any. No side effects.
    pub fn get(&self, key: &str) -> (r: Option<&T>)
        ensures
            match r {
                Some(v) => lookup(self.model(), key@) == Some(v.deep_view()),
                None => !has_key(self.model(), key@),
            },
    {
        match self.find(key) {
            Some(i) => {
                proof {
                    lemma_lookup_props(self.model(), key@);
                }
                Some(&self.entries[i].1)
            },
            None => None,
        }
    }

    /// Inserts `val` under `key`. An existing key is overwritten in place;
    /// a fresh key evicts the earliest-inserted entry first when the store
    /// is full, so the bound always holds afterwards.
    pub fn add(&mut self, key: &str, val: T)
        requires
            old(self).wf(),
        ensures
            final(self).wf(),
            final(self).spec_capacity() == old(self).spec_capacity(),
            final(self).model() == put(
                old(self).model(),
                old(self).spec_capacity(),
                key@,
                val.deep_view(),
            ),
            final(self).model().len() <= old(self).spec_capacity(),
    {
        let ghost pre = self.model();
        let ghost cap = self.spec_capacity();
        proof {
            lemma_lookup_props(pre, key@);
        }
        match self.find(key) {
            Some(i) => {
                self.entries.set(i, (key.to_owned(), val));
                proof {
                    assert(self.model() =~= pre.update(index_of_key(pre, key@), (key@, val.deep_view())));
                    lemma_put_preserves_wf(pre, cap, key@, val.deep_view());
                }
            },
            None => {
                if self.entries.len() >= self.capacity {
                    let _evicted = self.entries.remove(0);
                    proof {
                        assert(self.model() =~= pre.drop_first());
                    }
                }
                let ghost mid = self.model();
                self.entries.push((key.to_owned(), val));
                proof {
                    assert(self.model() =~= mid.push((key@, val.deep_view())));
                    if pre.len() < cap {
                        assert(self.model() =~= pre.push((key@, val.deep_view())));
                    } else {
                        assert(self.model() =~= pre.drop_first().push((key@, val.deep_view())));
                    }
                    lemma_put_preserves_wf(pre, cap, key@, val.deep_view());
                }
            },
        }
    }
}

/// A `put` keeps the store well formed: keys stay distinct and the length
/// never passes the capacity. After every `put` the bound holds.
pub proof fn lemma_put_preserves_wf<V>(m: Seq<(Seq<char>, V)>, cap: int, k: Seq<char>, v: V)
    requires
        model_wf(m, cap),
        cap >= 1,
    ensures
        model_wf(put(m, cap, k, v), cap),
        put(m, cap, k, v).len() <= cap,
{
    lemma_lookup_props(m, k);
    let r = put(m, cap, k, v);
    if has_key(m, k) {
        let i = index_of_key(m, k);
        assert(m[i].0 == k);
        assert forall|a: int, b: int| 0 <= a < b < r.len() implies r[a].0 != r[b].0 by {
            assert(m[a].0 != m[b].0);
        }
    } else if m.len() < cap {
        assert forall|a: int, b: int| 0 <= a < b < r.len() implies r[a].0 != r[b].0 by {
            if b < m.len() {
                assert(m[a].0 != m[b].0);
            } else {
                assert(r[b].0 == k);
                assert(r[a].0 == m[a].0);
                assert(m[a].0 != k);
            }
        }
    } else {
        assert forall|a: int, b: int| 0 <= a < b < r.len() implies r[a].0 != r[b].0 by {
            if b < r.len() - 1 {
                assert(r[a].0 == m[a + 1].0);
                assert(r[b].0 == m[b + 1].0);
                assert(m[a + 1].0 != m[b + 1].0);
            } else {
                assert(r[b].0 == k);
                assert(r[a].0 == m[a + 1].0);
                assert(m[a + 1].0 != k);
            }
        }
    }
}

/// A `put` followed by a lookup of the same key finds the value just stored.
pub proof fn lemma_put_then_get<V>(m: Seq<(Seq<char>, V)>, cap: int, k: Seq<char>, v: V)
    requires
        model_wf(m, cap),
        cap >= 1,
    ensures
        lookup(put(m, cap, k, v), k) == Some(v),
{
    lemma_lookup_props(m, k);
    let r = put(m, cap, k, v);
    if has_key(m, k) {
        let i = index_of_key(m, k);
        assert forall|j: int| 0 <= j < i implies r[j].0 != k by {
            assert(m[j].0 != k);
        }
        lemma_lookup_at_index(r, i);
    } else if m.len() < cap {
        assert forall|j: int| 0 <= j < m.len() implies r[j].0 != k by {
            assert(m[j].0 != k);
        }
        lemma_lookup_at_index(r, m.len() as int);
    } else {
        assert forall|j: int| 0 <= j < r.len() - 1 implies r[j].0 != k by {
            assert(m[j + 1].0 != k);
        }
        lemma_lookup_at_index(r, r.len() - 1);
    }
}

/// A `put` of a fresh key into a full store evicts exactly the earliest
/// entry: the length stays at the bound, the first key is gone, and every
/// other entry survives unchanged.
pub proof fn lemma_full_put_evicts_one<V>(m: Seq<(Seq<char>, V)>, cap: int, k: Seq<char>, v: V)
    requires
        model_wf(m, cap),
        cap >= 1,
        m.len() == cap,
        !has_key(m, k),
    ensures
        put(m, cap, k, v).len() == cap,
        forall|j: int| 1 <= j < m.len() ==> put(m, cap, k, v)[j - 1] == m[j],
        put(m, cap, k, v).last() == (k, v),
{
}

} // verus!
