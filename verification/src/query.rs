//! The holder of all expressions: one store per node type, keyed by
//! [`QueryId`].

use vstd::prelude::*;
use crate::ast::{Expression, ExpressionEnum};
use crate::query_id::{ExprKind, QueryId, lemma_query_id_eq};

verus! {

/// The number of node types.
pub const KIND_COUNT: usize = 28;

/// The slot of a node type among the stores.
pub open spec fn spec_kind_index(k: ExprKind) -> int {
    match k {
        ExprKind::Import => 0,
        ExprKind::Class => 1,
        ExprKind::FastVariable => 2,
        ExprKind::Function => 3,
        ExprKind::Return => 4,
        ExprKind::Yield => 5,
        ExprKind::Assign => 6,
        ExprKind::Alias => 7,
        ExprKind::Try => 8,
        ExprKind::Except => 9,
        ExprKind::Finally => 10,
        ExprKind::Assert => 11,
        ExprKind::Raise => 12,
        ExprKind::BaseValue => 13,
        ExprKind::FormatValue => 14,
        ExprKind::Format => 15,
        ExprKind::BinaryOperation => 16,
        ExprKind::Subscr => 17,
        ExprKind::UnaryOperation => 18,
        ExprKind::Call => 19,
        ExprKind::With => 20,
        ExprKind::For => 21,
        ExprKind::If => 22,
        ExprKind::Await => 23,
        ExprKind::Jump => 24,
        ExprKind::Container => 25,
        ExprKind::Slice => 26,
        ExprKind::Attribute => 27,
    }
}

/// The slot of a node type among the stores.
pub fn kind_index(k: ExprKind) -> (r: usize)
    ensures
        r == spec_kind_index(k),
        r < KIND_COUNT,
{
    match k {
        ExprKind::Import => 0,
        ExprKind::Class => 1,
        ExprKind::FastVariable => 2,
        ExprKind::Function => 3,
        ExprKind::Return => 4,
        ExprKind::Yield => 5,
        ExprKind::Assign => 6,
        ExprKind::Alias => 7,
        ExprKind::Try => 8,
        ExprKind::Except => 9,
        ExprKind::Finally => 10,
        ExprKind::Assert => 11,
        ExprKind::Raise => 12,
        ExprKind::BaseValue => 13,
        ExprKind::FormatValue => 14,
        ExprKind::Format => 15,
        ExprKind::BinaryOperation => 16,
        ExprKind::Subscr => 17,
        ExprKind::UnaryOperation => 18,
        ExprKind::Call => 19,
        ExprKind::With => 20,
        ExprKind::For => 21,
        ExprKind::If => 22,
        ExprKind::Await => 23,
        ExprKind::Jump => 24,
        ExprKind::Container => 25,
        ExprKind::Slice => 26,
        ExprKind::Attribute => 27,
    }
}

/// No id occurs twice.
pub open spec fn no_dup(keys: Seq<QueryId>) -> bool {
    forall|i: int, j: int| 0 <= i < j < keys.len() ==> keys[i] != keys[j]
}

/// The index of `q` in `keys`, if it occurs.
pub open spec fn index_of(keys: Seq<QueryId>, q: QueryId) -> Option<int> {
    if exists|i: int| 0 <= i < keys.len() && keys[i] == q {
        Some(choose|i: int| 0 <= i < keys.len() && keys[i] == q)
    } else {
        None
    }
}

/// `keys` without `q`.
pub open spec fn without_id(keys: Seq<QueryId>, q: QueryId) -> Seq<QueryId> {
    match index_of(keys, q) {
        Some(i) => keys.remove(i),
        None => keys,
    }
}

/// `keys` with `q` added last, unless it is there already.
pub open spec fn put_id(keys: Seq<QueryId>, q: QueryId) -> Seq<QueryId> {
    if index_of(keys, q) is Some {
        keys
    } else {
        keys.push(q)
    }
}

/// Distinct node types have distinct store indices.
pub proof fn lemma_kind_index_injective(a: ExprKind, b: ExprKind)
    ensures
        spec_kind_index(a) == spec_kind_index(b) ==> a == b,
{
}

/// In a sequence without duplicates, the index of an element is its only
/// position.
pub proof fn lemma_index_of(keys: Seq<QueryId>, q: QueryId, i: int)
    requires
        no_dup(keys),
        0 <= i < keys.len(),
        keys[i] == q,
    ensures
        index_of(keys, q) == Some(i),
{
}

/// A store of data keyed by ids: each id at most once.
#[derive(Debug)]
pub(crate) struct DataMap<T> {
    keys: Vec<QueryId>,
    values: Vec<T>,
}

impl<T> DataMap<T> {
    /// The ids, in the order they were first stored.
    pub closed spec fn spec_keys(&self) -> Seq<QueryId> {
        self.keys@
    }

    /// The data, in the order of the ids.
    pub closed spec fn spec_values(&self) -> Seq<T> {
        self.values@
    }

    /// One datum per id, and no id twice.
    pub open spec fn wf(&self) -> bool {
        &&& self.spec_keys().len() == self.spec_values().len()
        &&& no_dup(self.spec_keys())
    }

    /// The datum stored under `q`.
    pub open spec fn lookup(&self, q: QueryId) -> Option<T> {
        match index_of(self.spec_keys(), q) {
            Some(i) => Some(self.spec_values()[i]),
            None => None,
        }
    }

    /// An empty store.
    pub(crate) fn new() -> (r: Self)
        ensures
            r.wf(),
            r.spec_keys() == Seq::<QueryId>::empty(),
    {
        DataMap { keys: Vec::new(), values: Vec::new() }
    }

    fn position(&self, q: QueryId) -> (r: Option<usize>)
        requires
            self.wf(),
        ensures
            r matches Some(i) ==> index_of(self.spec_keys(), q) == Some(i as int) && i
                < self.spec_keys().len(),
            r is None ==> index_of(self.spec_keys(), q) is None,
    {
        let mut i: usize = 0;
        while i < self.keys.len()
            invariant
                i <= self.keys@.len(),
                no_dup(self.keys@),
                forall|j: int| 0 <= j < i ==> self.keys@[j] != q,
            decreases self.keys@.len() - i,
        {
            if self.keys[i] == q {
                proof {
                    lemma_index_of(self.keys@, q, i as int);
                }
                return Some(i);
            }
            i = i + 1;
        }
        None
    }

    /// Stores `data` under `query_id`; gives back what was stored there.
    pub(crate) fn add(&mut self, query_id: QueryId, data: T) -> (r: Option<T>)
        requires
            old(self).wf(),
        ensures
            final(self).wf(),
            r == old(self).lookup(query_id),
            final(self).lookup(query_id) == Some(data),
            forall|q: QueryId| q != query_id ==> final(self).lookup(q) == old(self).lookup(q),
            old(self).lookup(query_id) is None ==> final(self).spec_keys() == old(
                self,
            ).spec_keys().push(query_id),
            old(self).lookup(query_id) is Some ==> final(self).spec_keys() == old(self).spec_keys(),
    {
        self.set_by_id(query_id, data)
    }

    /// Stores `data` under `query_id`; gives back what was stored there.
    pub(crate) fn set_by_id(&mut self, query_id: QueryId, data: T) -> (r: Option<T>)
        requires
            old(self).wf(),
        ensures
            final(self).wf(),
            r == old(self).lookup(query_id),
            final(self).lookup(query_id) == Some(data),
            forall|q: QueryId| q != query_id ==> final(self).lookup(q) == old(self).lookup(q),
            old(self).lookup(query_id) is None ==> final(self).spec_keys() == old(
                self,
            ).spec_keys().push(query_id),
            old(self).lookup(query_id) is Some ==> final(self).spec_keys() == old(self).spec_keys(),
    {
        match self.position(query_id) {
            Some(i) => {
                let old_value = self.values.remove(i);
                self.values.insert(i, data);
                proof {
                    assert forall|q: QueryId| q != query_id implies self.lookup(q) == old(
                        self,
                    ).lookup(q) by {
                        if index_of(self.keys@, q) is Some {
                            let j = index_of(self.keys@, q).unwrap();
                            assert(self.keys@[j] == q);
                        }
                    }
                }
                Some(old_value)
            },
            None => {
                let ghost k0 = self.keys@;
                self.keys.push(query_id);
                self.values.push(data);
                proof {
                    let n = k0.len() as int;
                    assert(self.keys@[n] == query_id);
                    lemma_index_of(self.keys@, query_id, n);
                    assert forall|q: QueryId| q != query_id implies self.lookup(q) == old(
                        self,
                    ).lookup(q) by {
                        if index_of(k0, q) is Some {
                            let j = index_of(k0, q).unwrap();
                            assert(self.keys@[j] == q);
                            lemma_index_of(self.keys@, q, j);
                        } else if index_of(self.keys@, q) is Some {
                            let j = index_of(self.keys@, q).unwrap();
                            if j < n {
                                assert(k0[j] == q);
                            }
                        }
                    }
                }
                None
            },
        }
    }

    /// Removes what is stored under `query_id` and gives it back.
    pub(crate) fn remove(&mut self, query_id: QueryId) -> (r: Option<T>)
        requires
            old(self).wf(),
        ensures
            final(self).wf(),
            r == old(self).lookup(query_id),
            final(self).lookup(query_id) is None,
            forall|q: QueryId| q != query_id ==> final(self).lookup(q) == old(self).lookup(q),
            forall|q: QueryId|
                final(self).spec_keys().contains(q) ==> old(self).spec_keys().contains(q),
            final(self).spec_keys() == without_id(old(self).spec_keys(), query_id),
    {
        match self.position(query_id) {
            Some(i) => {
                let ghost k0 = self.keys@;
                let ghost v0 = self.values@;
                self.keys.remove(i);
                let v = self.values.remove(i);
                proof {
                    assert(self.keys@ =~= k0.remove(i as int));
                    assert forall|a: int, b: int| 0 <= a < b < self.keys@.len() implies self.keys@[a]
                        != self.keys@[b] by {
                        let a0 = if a < i { a } else { a + 1 };
                        let b0 = if b < i { b } else { b + 1 };
                        assert(self.keys@[a] == k0[a0]);
                        assert(self.keys@[b] == k0[b0]);
                    }
                    assert forall|j: int| 0 <= j < self.keys@.len() implies self.keys@[j]
                        != query_id by {
                        let j0 = if j < i { j } else { j + 1 };
                        assert(self.keys@[j] == k0[j0]);
                    }
                    assert forall|q: QueryId| q != query_id implies self.lookup(q) == old(
                        self,
                    ).lookup(q) by {
                        if index_of(k0, q) is Some {
                            let j = index_of(k0, q).unwrap();
                            let j1 = if j < i { j } else { j - 1 };
                            assert(self.keys@[j1] == q);
                            lemma_index_of(self.keys@, q, j1);
                            assert(self.values@[j1] == v0[j]);
                        } else if index_of(self.keys@, q) is Some {
                            let j = index_of(self.keys@, q).unwrap();
                            let j0 = if j < i { j } else { j + 1 };
                            assert(k0[j0] == q);
                        }
                    }
                    assert forall|q: QueryId| self.keys@.contains(q) implies k0.contains(q) by {
                        let j = choose|j: int| 0 <= j < self.keys@.len() && self.keys@[j] == q;
                        let j0 = if j < i { j } else { j + 1 };
                        assert(k0[j0] == q);
                    }
                }
                Some(v)
            },
            None => None,
        }
    }

    /// The datum stored under `query_id`.
    pub(crate) fn get(&self, query_id: QueryId) -> (r: Option<&T>)
        requires
            self.wf(),
        ensures
            self.lookup(query_id) is None ==> r is None,
            self.lookup(query_id) matches Some(v) ==> r is Some && *r.unwrap() == v,
    {
        match self.position(query_id) {
            Some(i) => Some(&self.values[i]),
            None => None,
        }
    }

    /// The datum stored under `query_id`, to change in place.
    pub(crate) fn get_mut(&mut self, query_id: QueryId) -> (r: Option<&mut T>)
        requires
            old(self).wf(),
        ensures
            final(self).wf(),
            final(self).spec_keys() == old(self).spec_keys(),
            match index_of(old(self).spec_keys(), query_id) {
                Some(i) => r is Some && *r.unwrap() == old(self).spec_values()[i]
                    && final(self).spec_values() == old(self).spec_values().update(
                    i,
                    *final(r.unwrap()),
                ),
                None => r is None && final(self).spec_values() == old(self).spec_values(),
            },
    {
        match self.position(query_id) {
            Some(i) => {
                let slice = self.values.as_mut_slice();
                let (head, tail) = slice.split_at_mut(i);
                let r = tail.first_mut();
                r
            },
            None => None,
        }
    }

    /// The stored entries, in order.
    pub(crate) fn iter(&self) -> (r: Vec<(QueryId, &T)>)
        requires
            self.wf(),
        ensures
            r@.len() == self.spec_keys().len(),
            forall|i: int|
                0 <= i < r@.len() ==> (#[trigger] r@[i]).0 == self.spec_keys()[i] && *r@[i].1
                    == self.spec_values()[i],
    {
        let mut r: Vec<(QueryId, &T)> = Vec::new();
        let mut i: usize = 0;
        while i < self.keys.len()
            invariant
                self.keys@.len() == self.values@.len(),
                i <= self.keys@.len(),
                r@.len() == i,
                forall|j: int|
                    0 <= j < i ==> (#[trigger] r@[j]).0 == self.keys@[j] && *r@[j].1
                        == self.values@[j],
            decreases self.keys@.len() - i,
        {
            r.push((self.keys[i], &self.values[i]));
            i = i + 1;
        }
        r
    }
}

/// The holder of all expressions: one store per node type, and the
/// generator of fresh ids.
#[derive(Debug)]
pub struct QueryMap {
    maps: Vec<DataMap<ExpressionEnum>>,
    id_generator: usize,
    ids: Vec<usize>,
}

impl View for QueryMap {
    type V = Map<QueryId, ExpressionEnum>;

    /// Each filed id with its expression.
    closed spec fn view(&self) -> Map<QueryId, ExpressionEnum> {
        Map::new(|q: QueryId| self.lookup(q) is Some, |q: QueryId| self.lookup(q).unwrap())
    }
}

impl QueryMap {
    /// Removing what was just added gives back the map as it was: `add`
    /// files `e` under a fresh id `q`, `remove` takes `q` out again.
    pub proof fn law_remove_undoes_add(
        before: QueryMap,
        added: QueryMap,
        removed: QueryMap,
        q: QueryId,
        e: ExpressionEnum,
    )
        requires
            before.wf(),
            before.fresh(),
            q.spec_id() == before.count(),
            added.lookup(q) == Some(e),
            forall|k: QueryId| k != q ==> added.lookup(k) == before.lookup(k),
            removed.lookup(q) is None,
            forall|k: QueryId| k != q ==> removed.lookup(k) == added.lookup(k),
        ensures
            forall|k: QueryId| removed.lookup(k) == before.lookup(k),
            removed@ == before@,
    {
        assert(before.lookup(q) is None);
        assert forall|k: QueryId| removed.lookup(k) == before.lookup(k) by {
            if k != q {
            }
        }
        assert(removed@ =~= before@);
    }

    /// Adding files the data under a new id: numbered after every id filed
    /// before (so different from each of them), holding the data, with
    /// every earlier entry unchanged. `add` gives such a state whenever
    /// fewer than `usize::MAX` ids have been handed out.
    pub proof fn law_add_files_under_a_new_id(
        before: QueryMap,
        after: QueryMap,
        q: QueryId,
        e: ExpressionEnum,
    )
        requires
            before.wf(),
            before.fresh(),
            q.spec_id() == before.count(),
            after.lookup(q) == Some(e),
            forall|k: QueryId| k != q ==> after.lookup(k) == before.lookup(k),
        ensures
            before.lookup(q) is None,
            forall|k: QueryId| #[trigger] before.lookup(k) is Some ==> k.spec_id() < q.spec_id(),
            after@ == before@.insert(q, e),
            forall|k: QueryId| #[trigger] before.lookup(k) is Some ==> after.lookup(k) == before.lookup(k),
    {
        assert(after@ =~= before@.insert(q, e));
    }

    /// `view` and `lookup` agree.
    pub proof fn lemma_view(&self, q: QueryId)
        ensures
            self@.dom().contains(q) <==> self.lookup(q) is Some,
            self.lookup(q) matches Some(e) ==> self@[q] == e,
    {
    }

    /// Every filed id is numbered below `count`: no id that `add` will
    /// hand out is filed yet.
    pub closed spec fn fresh(&self) -> bool {
        forall|q: QueryId| #[trigger] self.lookup(q) is Some ==> q.spec_id() < self.count()
    }

    /// The expression filed under `q`.
    pub closed spec fn lookup(&self, q: QueryId) -> Option<ExpressionEnum> {
        self.maps@[spec_kind_index(q.spec_type_id())].lookup(q)
    }

    /// The ids filed under the node type `k`, in the order they were filed.
    pub closed spec fn ids_of(&self, k: ExprKind) -> Seq<QueryId> {
        self.maps@[spec_kind_index(k)].spec_keys()
    }

    /// The expressions filed under the node type `k`, in the order of
    /// `ids_of`.
    pub closed spec fn values_of(&self, k: ExprKind) -> Seq<ExpressionEnum> {
        self.maps@[spec_kind_index(k)].spec_values()
    }

    /// How many ids have been handed out.
    pub closed spec fn count(&self) -> nat {
        self.ids@.len()
    }

    /// One store per node type, each well formed, and the handed-out ids
    /// numbered `0, 1, ...` with the generator on the last of them.
    pub closed spec fn wf(&self) -> bool {
        &&& self.maps@.len() == KIND_COUNT
        &&& forall|j: int| 0 <= j < KIND_COUNT ==> (#[trigger] self.maps@[j]).wf()
        &&& forall|j: int, i: int|
            0 <= j < KIND_COUNT && 0 <= i < self.maps@[j].spec_keys().len() ==> spec_kind_index(
                (#[trigger] self.maps@[j].spec_keys()[i]).spec_type_id(),
            ) == j
        &&& forall|i: int| 0 <= i < self.ids@.len() ==> self.ids@[i] == i
        &&& self.ids@.len() <= usize::MAX
        &&& self.id_generator == (if self.ids@.len() == 0 {
            usize::MAX as int
        } else {
            self.ids@.len() - 1
        })
    }

    /// `wf` gives each store's shape.
    pub proof fn lemma_wf(&self, k: ExprKind)
        requires
            self.wf(),
        ensures
            self.ids_of(k).len() == self.values_of(k).len(),
            no_dup(self.ids_of(k)),
            forall|i: int|
                0 <= i < self.ids_of(k).len() ==> (#[trigger] self.ids_of(k)[i]).spec_type_id()
                    == k ==> self.lookup(self.ids_of(k)[i]) == Some(self.values_of(k)[i]),
            forall|q: QueryId|
                q.spec_type_id() == k && (#[trigger] self.lookup(q)) is Some ==> self.ids_of(
                    k,
                ).contains(q),
    {
        let j = spec_kind_index(k);
        assert(self.maps@[j].wf());
        assert forall|i: int|
            0 <= i < self.ids_of(k).len() && (#[trigger] self.ids_of(k)[i]).spec_type_id()
                == k implies self.lookup(self.ids_of(k)[i]) == Some(self.values_of(k)[i]) by {
            lemma_index_of(self.ids_of(k), self.ids_of(k)[i], i);
        }
        assert forall|q: QueryId|
            q.spec_type_id() == k && (#[trigger] self.lookup(q)) is Some implies self.ids_of(
                k,
            ).contains(q) by {
            let i = index_of(self.ids_of(k), q).unwrap();
            assert(self.ids_of(k)[i] == q);
        }
    }

    /// At most `usize::MAX` ids are handed out.
    pub proof fn lemma_count(&self)
        requires
            self.wf(),
        ensures
            self.count() <= usize::MAX,
    {
    }

    /// An empty holder.
    pub fn new() -> (r: QueryMap)
        ensures
            r.wf(),
            r.count() == 0,
            r.fresh(),
            r@ == Map::<QueryId, ExpressionEnum>::empty(),
            forall|q: QueryId| r.lookup(q) is None,
            forall|k: ExprKind| r.ids_of(k) == Seq::<QueryId>::empty(),
    {
        let mut maps: Vec<DataMap<ExpressionEnum>> = Vec::new();
        let mut j: usize = 0;
        while j < KIND_COUNT
            invariant
                j <= KIND_COUNT,
                maps@.len() == j,
                forall|i: int| 0 <= i < j ==> (#[trigger] maps@[i]).wf() && maps@[i].spec_keys()
                    == Seq::<QueryId>::empty(),
            decreases KIND_COUNT - j,
        {
            maps.push(DataMap::new());
            j = j + 1;
        }
        let r = QueryMap { maps, id_generator: usize::MAX, ids: Vec::new() };
        proof {
            assert forall|q: QueryId| r.lookup(q) is None by {
                let j = spec_kind_index(q.spec_type_id());
                assert(r.maps@[j].spec_keys() == Seq::<QueryId>::empty());
            }
            assert(r@ =~= Map::<QueryId, ExpressionEnum>::empty());
        }
        r
    }

    /// The store of the node type `type_id`.
    fn query_map(&self, type_id: ExprKind) -> (r: Option<&DataMap<ExpressionEnum>>)
        requires
            self.wf(),
        ensures
            r matches Some(d) && *d == self.maps@[spec_kind_index(type_id)],
    {
        Some(&self.maps[kind_index(type_id)])
    }

    /// The store of the node type `type_id`, to change in place.
    fn query_map_mut(&mut self, type_id: ExprKind) -> (r: Option<
        &mut DataMap<ExpressionEnum>,
    >)
        requires
            old(self).wf(),
        ensures
            r is Some,
            *r.unwrap() == old(self).maps@[spec_kind_index(type_id)],
            final(self).maps@ == old(self).maps@.update(
                spec_kind_index(type_id),
                *final(r.unwrap()),
            ),
            final(self).ids == old(self).ids,
            final(self).id_generator == old(self).id_generator,
    {
        let i = kind_index(type_id);
        let slice = self.maps.as_mut_slice();
        let (head, tail) = slice.split_at_mut(i);
        let r = tail.first_mut();
        r
    }

    /// The expressions filed under the node type `T`, in filing order.
    pub fn query<T: Expression>(&self) -> (r: Vec<(QueryId, &ExpressionEnum)>)
        requires
            self.wf(),
        ensures
            r@.len() == self.ids_of(T::spec_kind()).len(),
            forall|i: int|
                0 <= i < r@.len() ==> (#[trigger] r@[i]).0 == self.ids_of(T::spec_kind())[i]
                    && *r@[i].1 == self.values_of(T::spec_kind())[i],
    {
        let k = T::kind();
        let store = self.query_map(k).unwrap();
        assert(store.wf());
        store.iter()
    }

    /// The expression filed under `query_id`.
    pub fn get_single(&self, query_id: QueryId) -> (r: Option<&ExpressionEnum>)
        requires
            self.wf(),
        ensures
            self.lookup(query_id) is None ==> r is None,
            self.lookup(query_id) matches Some(e) ==> r is Some && *r.unwrap() == e,
    {
        let store = self.query_map(query_id.type_id())?;
        assert(store.wf());
        store.get(query_id)
    }

    /// The expression filed under `query_id`, to change in place.
    pub fn get_single_mut(&mut self, query_id: QueryId) -> (r: Option<&mut ExpressionEnum>)
        requires
            old(self).wf(),
        ensures
            final(self).wf(),
            final(self).count() == old(self).count(),
            forall|k: ExprKind| final(self).ids_of(k) == old(self).ids_of(k),
            old(self).lookup(query_id) is None ==> r is None && forall|q: QueryId|
                final(self).lookup(q) == old(self).lookup(q),
            old(self).lookup(query_id) matches Some(e) ==> r is Some && *r.unwrap() == e
                && final(self).lookup(query_id) == Some(*final(r.unwrap())) && forall|q: QueryId|
                q != query_id ==> final(self).lookup(q) == old(self).lookup(q),
    {
        let ghost k = spec_kind_index(query_id.spec_type_id());
        let ghost old_maps = self.maps@;
        assert(old_maps[k].wf());
        let store = self.query_map_mut(query_id.type_id()).unwrap();
        store.get_mut(query_id)
    }

    /// Files `data` under a fresh id of the node type `T` and gives the id
    /// back. The ids are handed out as `0, 1, 2, ...`; once `usize::MAX` ids
    /// have been handed out there is no room for more and nothing is filed.
    pub fn add<T: Expression>(&mut self, data: ExpressionEnum) -> (r: Option<QueryId>)
        requires
            old(self).wf(),
        ensures
            final(self).wf(),
            r is None <==> old(self).count() == usize::MAX,
            r is None ==> final(self)@ == old(self)@ && final(self).count() == old(self).count()
                && forall|q: QueryId| final(self).lookup(q) == old(self).lookup(q),
            r matches Some(q) ==> {
                &&& q == QueryId::spec_new(old(self).count() as usize, T::spec_kind())
                &&& q.spec_id() == old(self).count()
                &&& q.spec_type_id() == T::spec_kind()
                &&& final(self).count() == old(self).count() + 1
                &&& final(self).lookup(q) == Some(data)
                &&& forall|k: QueryId| k != q ==> final(self).lookup(k) == old(self).lookup(k)
                &&& final(self)@ == old(self)@.insert(q, data)
                &&& old(self).fresh() ==> final(self).fresh() && !old(self)@.dom().contains(q)
                &&& forall|k: ExprKind|
                    k != T::spec_kind() ==> final(self).ids_of(k) == old(self).ids_of(k)
                &&& final(self).ids_of(T::spec_kind()) == (if old(self).lookup(q) is None {
                    old(self).ids_of(T::spec_kind()).push(q)
                } else {
                    old(self).ids_of(T::spec_kind())
                })
            },
    {
        if self.ids.len() == usize::MAX {
            return None;
        }
        self.id_generator = self.id_generator.wrapping_add(1);
        let id = self.id_generator;
        let ghost n = self.ids@.len();
        assert(id == n);
        self.ids.push(id);
        let query_id = QueryId::new(id, T::kind());
        let ghost j = spec_kind_index(T::spec_kind());
        let ghost old_maps = self.maps@;
        assert(old_maps[j].wf());
        let store = self.query_map_mut(query_id.type_id()).unwrap();
        store.add(query_id, data);
        proof {
            assert forall|jj: int, i: int|
                0 <= jj < KIND_COUNT && 0 <= i < self.maps@[jj].spec_keys().len() implies spec_kind_index(
                (#[trigger] self.maps@[jj].spec_keys()[i]).spec_type_id(),
            ) == jj by {
                if jj != j {
                    assert(self.maps@[jj] == old_maps[jj]);
                } else if i < old_maps[j].spec_keys().len() {
                    assert(self.maps@[jj].spec_keys()[i] == old_maps[j].spec_keys()[i]);
                }
            }
            assert forall|i: int| 0 <= i < self.ids@.len() implies self.ids@[i] == i by {
                if i < n {
                    assert(self.ids@[i] == old(self).ids@[i]);
                }
            }
            assert forall|q: QueryId| q != query_id implies self.lookup(q) == old(self).lookup(
                q,
            ) by {
                let jq = spec_kind_index(q.spec_type_id());
                if jq != j {
                    assert(self.maps@[jq] == old_maps[jq]);
                }
            }
            assert forall|k: ExprKind| k != T::spec_kind() implies self.ids_of(k) == old(
                self,
            ).ids_of(k) by {
                assert(spec_kind_index(k) != j);
            }
            assert(self@ =~= old(self)@.insert(query_id, data));
        }
        Some(query_id)
    }

    /// Takes out the expression filed under `query_id` and gives it back.
    pub fn remove(&mut self, query_id: QueryId) -> (r: Option<ExpressionEnum>)
        requires
            old(self).wf(),
        ensures
            final(self).wf(),
            final(self).count() == old(self).count(),
            r == old(self).lookup(query_id),
            final(self).lookup(query_id) is None,
            forall|q: QueryId| q != query_id ==> final(self).lookup(q) == old(self).lookup(q),
            final(self)@ == old(self)@.remove(query_id),
            old(self).fresh() ==> final(self).fresh(),
            forall|k: ExprKind|
                #[trigger] final(self).ids_of(k) == if k == query_id.spec_type_id() {
                    without_id(old(self).ids_of(k), query_id)
                } else {
                    old(self).ids_of(k)
                },
    {
        let ghost j = spec_kind_index(query_id.spec_type_id());
        let ghost old_maps = self.maps@;
        assert(old_maps[j].wf());
        let store = self.query_map_mut(query_id.type_id()).unwrap();
        let r = store.remove(query_id);
        proof {
            assert forall|jj: int, i: int|
                0 <= jj < KIND_COUNT && 0 <= i < self.maps@[jj].spec_keys().len() implies spec_kind_index(
                (#[trigger] self.maps@[jj].spec_keys()[i]).spec_type_id(),
            ) == jj by {
                if jj != j {
                    assert(self.maps@[jj] == old_maps[jj]);
                } else {
                    let q = self.maps@[jj].spec_keys()[i];
                    assert(self.maps@[jj].spec_keys().contains(q));
                    assert(old_maps[j].spec_keys().contains(q));
                    let i0 = choose|i0: int|
                        0 <= i0 < old_maps[j].spec_keys().len() && old_maps[j].spec_keys()[i0]
                            == q;
                    assert(old_maps[j].spec_keys()[i0] == q);
                }
            }
            assert forall|q: QueryId| q != query_id implies self.lookup(q) == old(self).lookup(
                q,
            ) by {
                let jq = spec_kind_index(q.spec_type_id());
                if jq != j {
                    assert(self.maps@[jq] == old_maps[jq]);
                }
            }
            assert(self@ =~= old(self)@.remove(query_id));
        }
        r
    }

    /// Files `data` under the number of `query_id` and the node type `U`,
    /// in place of what was filed under `query_id`, and gives that back.
    pub fn replace<U: Expression>(&mut self, query_id: QueryId, data: ExpressionEnum) -> (r: Option<
        ExpressionEnum,
    >)
        requires
            old(self).wf(),
        ensures
            final(self).wf(),
            final(self).count() == old(self).count(),
            r == old(self).lookup(query_id),
            forall|q: QueryId|
                q.spec_id() == query_id.spec_id() && q.spec_type_id() == U::spec_kind()
                    ==> #[trigger] final(self).lookup(q) == Some(data),
            query_id.spec_type_id() != U::spec_kind() ==> final(self).lookup(query_id) is None,
            forall|q: QueryId|
                q != query_id && !(q.spec_id() == query_id.spec_id() && q.spec_type_id()
                    == U::spec_kind()) ==> #[trigger] final(self).lookup(q) == old(self).lookup(q),
            exists|q: QueryId|
                q.spec_id() == query_id.spec_id() && q.spec_type_id() == U::spec_kind()
                    && final(self)@ == old(self)@.remove(query_id).insert(q, data),
            old(self).fresh() && query_id.spec_id() < old(self).count() ==> final(self).fresh(),
            forall|k: ExprKind|
                #[trigger] final(self).ids_of(k) == ids_after_replace(*old(self), query_id, U::spec_kind(), k),
    {
        let old_data = self.remove(query_id);
        let ghost mid = *self;
        let mut new_id = query_id;
        new_id.set_type_id(U::kind());
        proof {
            lemma_query_id_eq(new_id, query_id);
        }
        let ghost j = spec_kind_index(U::spec_kind());
        let ghost old_maps = self.maps@;
        assert(old_maps[j].wf());
        let store = self.query_map_mut(new_id.type_id()).unwrap();
        store.set_by_id(new_id, data);
        proof {
            assert forall|jj: int, i: int|
                0 <= jj < KIND_COUNT && 0 <= i < self.maps@[jj].spec_keys().len() implies spec_kind_index(
                (#[trigger] self.maps@[jj].spec_keys()[i]).spec_type_id(),
            ) == jj by {
                if jj != j {
                    assert(self.maps@[jj] == old_maps[jj]);
                } else if i < old_maps[j].spec_keys().len() {
                    assert(self.maps@[jj].spec_keys()[i] == old_maps[j].spec_keys()[i]);
                }
            }
            assert forall|q: QueryId| q != new_id implies self.lookup(q) == mid.lookup(q) by {
                let jq = spec_kind_index(q.spec_type_id());
                if jq != j {
                    assert(self.maps@[jq] == old_maps[jq]);
                }
            }
            assert forall|q: QueryId|
                q.spec_id() == query_id.spec_id() && q.spec_type_id()
                    == U::spec_kind() implies #[trigger] self.lookup(q) == Some(data) by {
                lemma_query_id_eq(q, new_id);
            }
            assert forall|q: QueryId|
                q != query_id && !(q.spec_id() == query_id.spec_id() && q.spec_type_id()
                    == U::spec_kind()) implies #[trigger] self.lookup(q) == old(self).lookup(q) by {
                lemma_query_id_eq(q, new_id);
            }
            assert(self@ =~= old(self)@.remove(query_id).insert(new_id, data));
            QueryId::lemma_spec_new(query_id.spec_id(), U::spec_kind());
            lemma_query_id_eq(new_id, QueryId::spec_new(query_id.spec_id(), U::spec_kind()));
            assert(self.maps@[j].spec_keys() == put_id(old_maps[j].spec_keys(), new_id));
            assert forall|k: ExprKind| #[trigger] self.ids_of(k) == ids_after_replace(
                *old(self),
                query_id,
                U::spec_kind(),
                k,
            ) by {
                lemma_kind_index_injective(k, U::spec_kind());
                assert(mid.ids_of(k) == old_maps[spec_kind_index(k)].spec_keys());
                if spec_kind_index(k) != j {
                    assert(self.maps@[spec_kind_index(k)] == old_maps[spec_kind_index(k)]);
                }
            }
        }
        old_data
    }
}

/// The ids filed under node type `k` after `replace` of `query_id` by an
/// expression of node type `ku`: `query_id` leaves the list of its own type,
/// and the id with its number and type `ku` joins the list of `ku` last,
/// unless it is there already.
pub open spec fn ids_after_replace(m: QueryMap, query_id: QueryId, ku: ExprKind, k: ExprKind) -> Seq<QueryId> {
    let s = if k == query_id.spec_type_id() {
        without_id(m.ids_of(k), query_id)
    } else {
        m.ids_of(k)
    };
    if k == ku {
        put_id(s, QueryId::spec_new(query_id.spec_id(), ku))
    } else {
        s
    }
}

impl Default for QueryMap {
    /// An empty holder.
    fn default() -> (r: QueryMap)
        ensures
            r.wf(),
            r.count() == 0,
            forall|q: QueryId| r.lookup(q) is None,
            forall|k: ExprKind| r.ids_of(k) == Seq::<QueryId>::empty(),
    {
        QueryMap::new()
    }
}

/// The expression filed under `expr_id`, where there is an id.
pub fn get_helper<'a>(map: &'a QueryMap, expr_id: Option<&QueryId>) -> (r: Option<
    &'a ExpressionEnum,
>)
    requires
        map.wf(),
    ensures
        match expr_id {
            None => r is None,
            Some(id) => match map.lookup(*id) {
                None => r is None,
                Some(e) => r is Some && *r.unwrap() == e,
            },
        },
{
    match expr_id {
        None => None,
        Some(id) => map.get_single(*id),
    }
}

/// The expression filed under `expr_id`, where there is an id, to change
/// in place.
pub fn get_mut_helper<'a>(map: &'a mut QueryMap, expr_id: Option<&QueryId>) -> (r: Option<
    &'a mut ExpressionEnum,
>)
    requires
        old(map).wf(),
    ensures
        final(map).wf(),
        final(map).count() == old(map).count(),
        forall|k: ExprKind| final(map).ids_of(k) == old(map).ids_of(k),
        match expr_id {
            None => r is None && *final(map) == *old(map),
            Some(id) => match old(map).lookup(*id) {
                None => r is None && forall|q: QueryId| final(map).lookup(q) == old(map).lookup(q),
                Some(e) => r is Some && *r.unwrap() == e && final(map).lookup(*id) == Some(
                    *final(r.unwrap()),
                ) && forall|q: QueryId| q != *id ==> final(map).lookup(q) == old(map).lookup(q),
            },
        },
{
    match expr_id {
        None => None,
        Some(id) => map.get_single_mut(*id),
    }
}

} // verus!

