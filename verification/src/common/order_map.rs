//! A small map that keeps its entries in insertion order.

use vstd::prelude::*;

verus! {

/// Keys that can be compared by their views.
pub trait MapKey: View + Sized {
    /// Whether the two keys have the same view.
    fn key_eq(&self, other: &Self) -> (r: bool)
        ensures
            r == (self@ == other@),
    ;
}

impl MapKey for usize {
    fn key_eq(&self, other: &Self) -> (r: bool) {
        *self == *other
    }
}

impl MapKey for String {
    fn key_eq(&self, other: &Self) -> (r: bool) {
        *self == *other
    }
}

/// The first index of `keys` whose view is `k`.
pub open spec fn first_index<K: View>(keys: Seq<K>, k: K::V) -> Option<int>
    decreases keys.len(),
{
    if keys.len() == 0 {
        None
    } else if keys[0]@ == k {
        Some(0)
    } else {
        match first_index(keys.drop_first(), k) {
            Some(i) => Some(i + 1),
            None => None,
        }
    }
}

/// `first_index` finds the first index with the key, and is `None` exactly
/// when no key has that view.
pub proof fn lemma_first_index<K: View>(keys: Seq<K>, k: K::V)
    ensures
        first_index(keys, k) matches Some(i) ==> 0 <= i < keys.len() && keys[i]@ == k && forall|
            j: int,
        | 0 <= j < i ==> keys[j]@ != k,
        first_index(keys, k) is None <==> forall|j: int| 0 <= j < keys.len() ==> keys[j]@ != k,
    decreases keys.len(),
{
    if keys.len() > 0 {
        lemma_first_index(keys.drop_first(), k);
        if keys[0]@ != k {
            assert forall|j: int| 1 <= j < keys.len() implies keys[j] == keys.drop_first()[j - 1] by {}
            if first_index(keys.drop_first(), k) is None {
                assert forall|j: int| 0 <= j < keys.len() implies keys[j]@ != k by {
                    if j > 0 {
                        assert(keys[j] == keys.drop_first()[j - 1]);
                    }
                }
            } else {
                let i = first_index(keys.drop_first(), k).unwrap();
                assert forall|j: int| 0 <= j < i + 1 implies keys[j]@ != k by {
                    if j > 0 {
                        assert(keys[j] == keys.drop_first()[j - 1]);
                    }
                }
            }
        }
    }
}

/// Appending an entry keeps the first index of every key already present,
/// and gives a new key the appended index.
pub proof fn lemma_first_index_push<K: View>(keys: Seq<K>, x: K, k: K::V)
    ensures
        first_index(keys, k) is Some ==> first_index(keys.push(x), k) == first_index(keys, k),
        first_index(keys, k) is None && x@ == k ==> first_index(keys.push(x), k) == Some(
            keys.len() as int,
        ),
        first_index(keys, k) is None && x@ != k ==> first_index(keys.push(x), k) is None,
    decreases keys.len(),
{
    if keys.len() > 0 {
        assert(keys.push(x)[0] == keys[0]);
        assert(keys.push(x).drop_first() =~= keys.drop_first().push(x));
        lemma_first_index_push(keys.drop_first(), x, k);
        if first_index(keys, k) is None {
            assert(keys[0]@ != k);
            assert(first_index(keys.drop_first(), k) is None);
        }
    } else {
        assert(keys.push(x).drop_first() =~= Seq::<K>::empty());
        assert(first_index(Seq::<K>::empty(), k) is None);
        assert(keys.push(x)[0] == x);
    }
}

/// The map after appending, in order, the entries `ks`/`vs` whose keys it
/// does not hold yet.
pub open spec fn extended<K: View, V>(keys: Seq<K>, values: Seq<V>, ks: Seq<K>, vs: Seq<V>) -> (
    Seq<K>,
    Seq<V>,
)
    decreases ks.len(),
{
    if ks.len() == 0 || vs.len() == 0 {
        (keys, values)
    } else if first_index(keys, ks[0]@) is Some {
        extended(keys, values, ks.drop_first(), vs.drop_first())
    } else {
        extended(keys.push(ks[0]), values.push(vs[0]), ks.drop_first(), vs.drop_first())
    }
}

/// The entries after inserting `k` with `v`: a key already present keeps
/// its place and takes the new value; a new key goes last.
pub open spec fn inserted<K: View, V>(keys: Seq<K>, values: Seq<V>, k: K, v: V) -> (Seq<K>, Seq<V>) {
    match first_index(keys, k@) {
        Some(i) => (keys, values.update(i, v)),
        None => (keys.push(k), values.push(v)),
    }
}

/// No two keys have the same view.
pub open spec fn distinct_keys<K: View>(keys: Seq<K>) -> bool {
    forall|i: int, j: int| 0 <= i < j < keys.len() ==> keys[i]@ != keys[j]@
}

/// The value of the first entry with key `k` among `keys`/`values`.
pub open spec fn lookup_in<K: View, V>(keys: Seq<K>, values: Seq<V>, k: K::V) -> Option<V> {
    match first_index(keys, k) {
        Some(i) => Some(values[i]),
        None => None,
    }
}

/// The index of `k` in `ks` as an integer; `-1` where it does not occur.
pub open spec fn rank<K: View>(ks: Seq<K>, k: K::V) -> int {
    match first_index(ks, k) {
        Some(i) => i,
        None => -1,
    }
}

/// What `extended` keeps and adds: the old entries stay as they were and
/// first; each added key was missing before, comes from `ks`, reads as it
/// does in `ks`, and the added keys follow their order in `ks`.
proof fn lemma_extended<K: View, V>(keys: Seq<K>, values: Seq<V>, ks: Seq<K>, vs: Seq<V>)
    requires
        keys.len() == values.len(),
        ks.len() == vs.len(),
    ensures
        extended(keys, values, ks, vs).0.len() == extended(keys, values, ks, vs).1.len(),
        keys.len() <= extended(keys, values, ks, vs).0.len(),
        extended(keys, values, ks, vs).0.subrange(0, keys.len() as int) == keys,
        extended(keys, values, ks, vs).1.subrange(0, keys.len() as int) == values,
        forall|k: K::V|
            first_index(keys, k) is Some ==> #[trigger] first_index(
                extended(keys, values, ks, vs).0,
                k,
            ) == first_index(keys, k),
        forall|k: K::V|
            first_index(keys, k) is None ==> #[trigger] lookup_in(
                extended(keys, values, ks, vs).0,
                extended(keys, values, ks, vs).1,
                k,
            ) == lookup_in(ks, vs, k),
        forall|i: int|
            keys.len() <= i < extended(keys, values, ks, vs).0.len() ==> first_index(
                keys,
                (#[trigger] extended(keys, values, ks, vs).0[i])@,
            ) is None && rank(ks, extended(keys, values, ks, vs).0[i]@) >= 0,
        forall|i: int, j: int|
            keys.len() <= i < j < extended(keys, values, ks, vs).0.len() ==> rank(
                ks,
                (#[trigger] extended(keys, values, ks, vs).0[i])@,
            ) < rank(ks, (#[trigger] extended(keys, values, ks, vs).0[j])@),
    decreases ks.len(),
{
    let n = keys.len() as int;
    if ks.len() == 0 || vs.len() == 0 {
        assert(keys.subrange(0, n) =~= keys);
        assert(values.subrange(0, n) =~= values);
        assert forall|k: K::V| first_index(keys, k) is None implies #[trigger] lookup_in(
            keys,
            values,
            k,
        ) == lookup_in(ks, vs, k) by {
            assert(first_index(ks, k) is None);
        }
    } else {
        let ks1 = ks.drop_first();
        let vs1 = vs.drop_first();
        let x = ks[0];
        assert forall|k: K::V| k != x@ implies #[trigger] first_index(ks, k) == (match first_index(
            ks1,
            k,
        ) {
            Some(i) => Some(i + 1),
            None => None,
        }) by {}
        assert forall|k: K::V| k != x@ implies #[trigger] lookup_in(ks, vs, k) == lookup_in(
            ks1,
            vs1,
            k,
        ) by {
            lemma_first_index(ks1, k);
            if let Some(i) = first_index(ks1, k) {
                assert(vs[i + 1] == vs1[i]);
            }
        }
        if first_index(keys, x@) is Some {
            lemma_extended(keys, values, ks1, vs1);
        } else {
            let keys2 = keys.push(x);
            let values2 = values.push(vs[0]);
            lemma_extended(keys2, values2, ks1, vs1);
            let r = extended(keys2, values2, ks1, vs1);
            assert(r == extended(keys, values, ks, vs));
            assert(r.0.subrange(0, n + 1) == keys2);
            assert(r.1.subrange(0, n + 1) == values2);
            assert(r.0.subrange(0, n) =~= keys) by {
                assert forall|i: int| 0 <= i < n implies r.0.subrange(0, n)[i] == keys[i] by {
                    assert(r.0.subrange(0, n + 1)[i] == keys2[i]);
                }
            }
            assert(r.1.subrange(0, n) =~= values) by {
                assert forall|i: int| 0 <= i < n implies r.1.subrange(0, n)[i] == values[i] by {
                    assert(r.1.subrange(0, n + 1)[i] == values2[i]);
                }
            }
            assert(r.0[n] == x) by {
                assert(r.0.subrange(0, n + 1)[n] == keys2[n]);
            }
            assert(r.1[n] == vs[0]) by {
                assert(r.1.subrange(0, n + 1)[n] == values2[n]);
            }
            assert forall|k: K::V| first_index(keys, k) is Some implies #[trigger] first_index(
                r.0,
                k,
            ) == first_index(keys, k) by {
                lemma_first_index_push(keys, x, k);
            }
            assert forall|k: K::V| first_index(keys, k) is None implies #[trigger] lookup_in(
                r.0,
                r.1,
                k,
            ) == lookup_in(ks, vs, k) by {
                lemma_first_index_push(keys, x, k);
                if k == x@ {
                    assert(first_index(r.0, k) == Some(n));
                    assert(first_index(ks, k) == Some(0int));
                }
            }
            assert forall|i: int| n <= i < r.0.len() implies first_index(keys, (#[trigger] r.0[i])@)
                is None && rank(ks, r.0[i]@) >= 0 by {
                if i == n {
                    assert(first_index(ks, x@) == Some(0int));
                } else {
                    lemma_first_index_push(keys, x, r.0[i]@);
                    assert(first_index(keys2, r.0[i]@) is None);
                }
            }
            assert forall|i: int, j: int| n <= i < j < r.0.len() implies rank(
                ks,
                (#[trigger] r.0[i])@,
            ) < rank(ks, (#[trigger] r.0[j])@) by {
                lemma_first_index_push(keys, x, r.0[j]@);
                assert(first_index(keys2, r.0[j]@) is None);
                if i > n {
                    lemma_first_index_push(keys, x, r.0[i]@);
                    assert(first_index(keys2, r.0[i]@) is None);
                } else {
                    assert(first_index(ks, x@) == Some(0int));
                }
            }
        }
    }
}

/// Extending a map by another: the entries it had stay first and unchanged,
/// every key it lacked reads as in the other map, each added key was
/// missing before and is a key of the other map, the added keys come in
/// the other map's order, and no key occurs twice.
pub proof fn law_extend_keeps_and_appends<K: MapKey, V>(
    a: OrderMap<K, V>,
    b: OrderMap<K, V>,
    after: OrderMap<K, V>,
)
    requires
        a.wf(),
        b.wf(),
        (after.spec_keys(), after.spec_values()) == extended(
            a.spec_keys(),
            a.spec_values(),
            b.spec_keys(),
            b.spec_values(),
        ),
        after.wf(),
    ensures
        after.spec_keys().subrange(0, a.spec_keys().len() as int) == a.spec_keys(),
        after.spec_values().subrange(0, a.spec_keys().len() as int) == a.spec_values(),
        forall|k: K::V| a.lookup(k) is Some ==> #[trigger] after.lookup(k) == a.lookup(k),
        forall|k: K::V| a.lookup(k) is None ==> #[trigger] after.lookup(k) == b.lookup(k),
        forall|i: int|
            a.spec_keys().len() <= i < after.spec_keys().len() ==> a.lookup(
                (#[trigger] after.spec_keys()[i])@,
            ) is None && b.lookup(after.spec_keys()[i]@) is Some,
        forall|i: int, j: int|
            a.spec_keys().len() <= i < j < after.spec_keys().len() ==> rank(
                b.spec_keys(),
                (#[trigger] after.spec_keys()[i])@,
            ) < rank(b.spec_keys(), (#[trigger] after.spec_keys()[j])@),
        distinct_keys(after.spec_keys()),
{
    lemma_extended(a.spec_keys(), a.spec_values(), b.spec_keys(), b.spec_values());
    let n = a.spec_keys().len() as int;
    assert forall|k: K::V| a.lookup(k) is Some implies #[trigger] after.lookup(k) == a.lookup(
        k,
    ) by {
        let i = first_index(a.spec_keys(), k).unwrap();
        lemma_first_index(a.spec_keys(), k);
        assert(first_index(after.spec_keys(), k) == Some(i));
        assert(after.spec_values().subrange(0, n)[i] == after.spec_values()[i]);
    }
    assert forall|k: K::V| a.lookup(k) is None implies #[trigger] after.lookup(k) == b.lookup(k) by {
        assert(lookup_in(after.spec_keys(), after.spec_values(), k) == lookup_in(
            b.spec_keys(),
            b.spec_values(),
            k,
        ));
    }
}

/// An ordered dictionary: each key once, its entries in insertion order.
#[derive(Debug, Clone)]
pub struct OrderMap<K, V> {
    keys: Vec<K>,
    values: Vec<V>,
}

impl<K: MapKey, V> OrderMap<K, V> {
    /// The keys, in insertion order.
    pub closed spec fn spec_keys(&self) -> Seq<K> {
        self.keys@
    }

    /// The values, in insertion order.
    pub closed spec fn spec_values(&self) -> Seq<V> {
        self.values@
    }

    /// One value for each key, and no key twice.
    pub open spec fn wf(&self) -> bool {
        &&& self.spec_keys().len() == self.spec_values().len()
        &&& distinct_keys(self.spec_keys())
    }

    /// The value of the entry with key `k`.
    pub open spec fn lookup(&self, k: K::V) -> Option<V> {
        match first_index(self.spec_keys(), k) {
            Some(i) => Some(self.spec_values()[i]),
            None => None,
        }
    }

    /// An empty map.
    pub fn new() -> (r: Self)
        ensures
            r.wf(),
            r.spec_keys() == Seq::<K>::empty(),
            r.spec_values() == Seq::<V>::empty(),
    {
        OrderMap { keys: Vec::new(), values: Vec::new() }
    }

    /// Inserts `code_object` under `mark`: a key already present keeps its
    /// place and takes the new value; a new key goes last.
    pub fn insert(&mut self, mark: K, code_object: V)
        requires
            old(self).wf(),
        ensures
            final(self).wf(),
            (final(self).spec_keys(), final(self).spec_values()) == inserted(
                old(self).spec_keys(),
                old(self).spec_values(),
                mark,
                code_object,
            ),
    {
        proof {
            lemma_first_index(self.keys@, mark@);
        }
        match self.position(&mark) {
            Some(i) => {
                self.values.set(i, code_object);
            },
            None => {
                let ghost k0 = self.keys@;
                self.keys.push(mark);
                self.values.push(code_object);
                proof {
                    assert forall|i: int, j: int| 0 <= i < j < self.keys@.len() implies self.keys@[i]@
                        != self.keys@[j]@ by {
                        if j == k0.len() {
                            assert(k0[i]@ != mark@);
                        } else {
                            assert(self.keys@[i] == k0[i] && self.keys@[j] == k0[j]);
                        }
                    }
                }
            },
        }
    }

    /// Appends, in order, each entry of `map` whose key is not present yet.
    pub fn extend(&mut self, map: Self)
        requires
            old(self).wf(),
            map.wf(),
        ensures
            final(self).wf(),
            (final(self).spec_keys(), final(self).spec_values()) == extended(
                old(self).spec_keys(),
                old(self).spec_values(),
                map.spec_keys(),
                map.spec_values(),
            ),
    {
        let mut map = map;
        let ghost goal = extended(self.keys@, self.values@, map.keys@, map.values@);
        while map.keys.len() > 0
            invariant
                self.keys@.len() == self.values@.len(),
                distinct_keys(self.keys@),
                map.keys@.len() == map.values@.len(),
                extended(self.keys@, self.values@, map.keys@, map.values@) == goal,
            decreases map.keys@.len(),
        {
            let k = map.keys.remove(0);
            let v = map.values.remove(0);
            if !self.contains_key(&k) {
                let ghost k0 = self.keys@;
                proof {
                    lemma_first_index(k0, k@);
                }
                self.keys.push(k);
                self.values.push(v);
                proof {
                    assert forall|i: int, j: int| 0 <= i < j < self.keys@.len() implies self.keys@[i]@
                        != self.keys@[j]@ by {
                        if j == k0.len() {
                            assert(k0[i]@ != self.keys@[j]@);
                        } else {
                            assert(self.keys@[i] == k0[i] && self.keys@[j] == k0[j]);
                        }
                    }
                }
            }
        }
        assert(map.values@.len() == 0);
    }

    /// The value of the first entry with key `mark`.
    pub fn get(&self, mark: &K) -> (r: Option<&V>)
        requires
            self.wf(),
        ensures
            self.lookup(mark@) is None ==> r is None,
            self.lookup(mark@) matches Some(v) ==> r is Some && *r.unwrap() == v,
    {
        proof {
            lemma_first_index(self.keys@, mark@);
        }
        match self.position(mark) {
            Some(i) => {
                let v = &self.values[i];
                assert(first_index(self.spec_keys(), mark@) == Some(i as int));
                assert(self.lookup(mark@) == Some(self.values@[i as int]));
                Some(v)
            },
            None => None,
        }
    }

    /// The first index whose key is `mark`.
    fn position(&self, mark: &K) -> (r: Option<usize>)
        ensures
            r matches Some(i) ==> first_index(self.keys@, mark@) == Some(i as int),
            r is None ==> first_index(self.keys@, mark@) is None,
    {
        proof {
            lemma_first_index(self.keys@, mark@);
        }
        let mut i: usize = 0;
        while i < self.keys.len()
            invariant
                i <= self.keys@.len(),
                forall|j: int| 0 <= j < i ==> self.keys@[j]@ != mark@,
            decreases self.keys@.len() - i,
        {
            if self.keys[i].key_eq(mark) {
                proof {
                    lemma_first_index(self.keys@, mark@);
                    let f = first_index(self.keys@, mark@);
                    if f is None {
                        assert(self.keys@[i as int]@ != mark@);
                    } else {
                        let i0 = f.unwrap();
                        if i0 < i {
                            assert(self.keys@[i0]@ != mark@);
                        } else if i0 > i {
                            assert(self.keys@[i as int]@ != mark@);
                        }
                    }
                }
                return Some(i);
            }
            i = i + 1;
        }
        None
    }

    /// The value of the first entry with key `mark`, to change in place.
    pub fn get_mut(&mut self, mark: &K) -> (r: Option<&mut V>)
        requires
            old(self).wf(),
        ensures
            final(self).wf(),
            final(self).spec_keys() == old(self).spec_keys(),
            match first_index(old(self).spec_keys(), mark@) {
                Some(i) => r is Some && *r.unwrap() == old(self).spec_values()[i]
                    && final(self).spec_values() == old(self).spec_values().update(
                    i,
                    *final(r.unwrap()),
                ),
                None => r is None && final(self).spec_values() == old(self).spec_values(),
            },
    {
        proof {
            lemma_first_index(self.keys@, mark@);
        }
        match self.position(mark) {
            Some(i) => {
                let slice = self.values.as_mut_slice();
                let (head, tail) = slice.split_at_mut(i);
                let r = tail.first_mut();
                r
            },
            None => None,
        }
    }

    /// Whether some entry has key `mark`.
    pub fn contains_key(&self, mark: &K) -> (r: bool)
        ensures
            r == (first_index(self.spec_keys(), mark@) is Some),
    {
        self.position(mark).is_some()
    }

    /// The entries, in insertion order.
    pub fn iter(&self) -> (r: Vec<(&K, &V)>)
        requires
            self.wf(),
        ensures
            r@.len() == self.spec_keys().len(),
            forall|i: int|
                0 <= i < r@.len() ==> *(#[trigger] r@[i]).0 == self.spec_keys()[i] && *r@[i].1
                    == self.spec_values()[i],
    {
        let mut r: Vec<(&K, &V)> = Vec::new();
        let mut i: usize = 0;
        while i < self.keys.len()
            invariant
                self.keys@.len() == self.values@.len(),
                i <= self.keys@.len(),
                r@.len() == i,
                forall|j: int|
                    0 <= j < i ==> *(#[trigger] r@[j]).0 == self.keys@[j] && *r@[j].1
                        == self.values@[j],
            decreases self.keys@.len() - i,
        {
            r.push((&self.keys[i], &self.values[i]));
            i = i + 1;
        }
        r
    }

    /// The values, in insertion order.
    pub fn values(&self) -> (r: Vec<&V>)
        ensures
            r@.len() == self.spec_values().len(),
            forall|i: int| 0 <= i < r@.len() ==> *(#[trigger] r@[i]) == self.spec_values()[i],
    {
        let mut r: Vec<&V> = Vec::new();
        let mut i: usize = 0;
        while i < self.values.len()
            invariant
                i <= self.values@.len(),
                r@.len() == i,
                forall|j: int| 0 <= j < i ==> *(#[trigger] r@[j]) == self.values@[j],
            decreases self.values@.len() - i,
        {
            r.push(&self.values[i]);
            i = i + 1;
        }
        r
    }

    /// The keys, in insertion order.
    pub fn keys(&self) -> (r: Vec<&K>)
        ensures
            r@.len() == self.spec_keys().len(),
            forall|i: int| 0 <= i < r@.len() ==> *(#[trigger] r@[i]) == self.spec_keys()[i],
    {
        let mut r: Vec<&K> = Vec::new();
        let mut i: usize = 0;
        while i < self.keys.len()
            invariant
                i <= self.keys@.len(),
                r@.len() == i,
                forall|j: int| 0 <= j < i ==> *(#[trigger] r@[j]) == self.keys@[j],
            decreases self.keys@.len() - i,
        {
            r.push(&self.keys[i]);
            i = i + 1;
        }
        r
    }
}


/// Inserting an entry: the inserted key then reads back the inserted value
/// and keeps its place if it was present (a new key goes last), and every
/// other key reads as before.
pub proof fn law_lookup_after_insert<K: MapKey, V>(
    before: OrderMap<K, V>,
    after: OrderMap<K, V>,
    mark: K,
    v: V,
    k: K::V,
)
    requires
        before.wf(),
        (after.spec_keys(), after.spec_values()) == inserted(
            before.spec_keys(),
            before.spec_values(),
            mark,
            v,
        ),
    ensures
        k == mark@ ==> after.lookup(k) == Some(v),
        k != mark@ ==> after.lookup(k) == before.lookup(k),
        before.lookup(mark@) is Some ==> after.spec_keys() == before.spec_keys(),
        before.lookup(mark@) is None ==> after.spec_keys() == before.spec_keys().push(mark),
{
    lemma_first_index_push(before.spec_keys(), mark, k);
    lemma_first_index(before.spec_keys(), k);
    lemma_first_index(before.spec_keys(), mark@);
    if let Some(i) = first_index(before.spec_keys(), mark@) {
        if let Some(j) = first_index(before.spec_keys(), k) {
            if k != mark@ {
                assert(i != j);
                assert(before.spec_values().update(i, v)[j] == before.spec_values()[j]);
            }
        }
    } else {
        lemma_first_index_push(before.spec_keys(), mark, mark@);
        if let Some(j) = first_index(before.spec_keys(), k) {
            assert(before.spec_values().push(v)[j] == before.spec_values()[j]);
        }
    }
}

} // verus!
