//! Lists of records that are found by their id: what a domain keeps of its
//! users, containers and resources.

use crate::graph::{lookup, position, put_spec, Entity, EntityModel, GraphModel, ObjectGraph};
use crate::monotonicity::{entity_extends, graph_extends, lemma_lookup_extends};
use crate::laws::{law_get_after_put, law_put_keeps_others};
use crate::reference::RefModel;
use crate::text::views;
use vstd::prelude::*;
use vstd::string::*;

verus! {

/// A record that is stored under an id.
pub trait Identified: View + Sized {
    /// The id of a record, read from its model.
    spec fn id_of(m: Self::V) -> Seq<char>;

    /// The id under which this record is stored.
    fn id(&self) -> (id: &String)
        ensures
            id@ == Self::id_of(self@),
    ;
}

/// A record that stands for an entity of the graph.
pub trait Record: Identified {
    /// The entity that a record stands for, read from its model.
    spec fn entity_of(m: Self::V) -> EntityModel;

    /// The entity that this record stands for.
    fn to_entity(&self) -> (e: Entity)
        ensures
            e@ == Self::entity_of(self@),
    ;
}

/// The position of the first record at or after `from` that is stored under
/// `id`.
pub open spec fn index_from<T: Identified>(items: Seq<T::V>, id: Seq<char>, from: int) -> Option<int>
    decreases items.len() - from,
{
    if from < 0 || from >= items.len() {
        None
    } else if T::id_of(items[from]) == id {
        Some(from)
    } else {
        index_from::<T>(items, id, from + 1)
    }
}

/// The list after `item` was stored: the record held under the same id is
/// replaced where it stands, a new one is added at the end.
pub open spec fn upsert_spec<T: Identified>(items: Seq<T::V>, item: T::V) -> Seq<T::V> {
    match index_from::<T>(items, T::id_of(item), 0) {
        Some(i) => items.update(i, item),
        None => items.push(item),
    }
}

/// No two records of the list are stored under one id.
pub open spec fn ids_distinct<T: Identified>(items: Seq<T::V>) -> bool {
    forall|i: int, j: int|
        0 <= i < j < items.len() ==> T::id_of(#[trigger] items[i]) != T::id_of(#[trigger] items[j])
}

/// The graph after the entities of the first `n` records were stored in it.
pub open spec fn stored<T: Record>(g: GraphModel, items: Seq<T::V>, n: int) -> GraphModel
    decreases n,
{
    if n <= 0 {
        g
    } else {
        put_spec(stored::<T>(g, items, n - 1), T::entity_of(items[n - 1]))
    }
}

/// The graph after the entities of all the records were stored in it.
pub open spec fn stored_all<T: Record>(g: GraphModel, items: Seq<T::V>) -> GraphModel {
    stored::<T>(g, items, items.len() as int)
}

/// What `index_from` finds is the first record of that id at or after `from`.
pub proof fn lemma_index_from<T: Identified>(items: Seq<T::V>, id: Seq<char>, from: int)
    requires
        0 <= from <= items.len(),
    ensures
        match index_from::<T>(items, id, from) {
            Some(i) => from <= i < items.len() && T::id_of(items[i]) == id && forall|j: int|
                from <= j < i ==> T::id_of(items[j]) != id,
            None => forall|j: int| from <= j < items.len() ==> T::id_of(items[j]) != id,
        },
    decreases items.len() - from,
{
    if from < items.len() && T::id_of(items[from]) != id {
        lemma_index_from::<T>(items, id, from + 1);
    }
}

/// Storing a record keeps the ids of the list distinct.
pub proof fn lemma_upsert_keeps_ids_distinct<T: Identified>(items: Seq<T::V>, item: T::V)
    requires
        ids_distinct::<T>(items),
    ensures
        ids_distinct::<T>(upsert_spec::<T>(items, item)),
{
    let after = upsert_spec::<T>(items, item);
    lemma_index_from::<T>(items, T::id_of(item), 0);
    match index_from::<T>(items, T::id_of(item), 0) {
        Some(k) => {
            assert forall|i: int, j: int| 0 <= i < j < after.len() implies T::id_of(
                #[trigger] after[i],
            ) != T::id_of(#[trigger] after[j]) by {
                assert(T::id_of(after[i]) == T::id_of(items[i]));
                assert(T::id_of(after[j]) == T::id_of(items[j]));
            }
        },
        None => {
            assert forall|i: int, j: int| 0 <= i < j < after.len() implies T::id_of(
                #[trigger] after[i],
            ) != T::id_of(#[trigger] after[j]) by {
                if j < items.len() {
                    assert(after[i] == items[i] && after[j] == items[j]);
                } else {
                    assert(after[i] == items[i]);
                }
            }
        },
    }
}

/// Storing a record under an id that the list does not hold adds it at the
/// end.
pub proof fn lemma_upsert_new<T: Identified>(items: Seq<T::V>, item: T::V)
    requires
        forall|j: int| 0 <= j < items.len() ==> T::id_of(#[trigger] items[j]) != T::id_of(item),
    ensures
        upsert_spec::<T>(items, item) == items.push(item),
{
    lemma_index_from::<T>(items, T::id_of(item), 0);
}

/// What holds of every entity of a graph and of the entity of every record
/// holds of every entity of the graph after the records were stored in it.
pub proof fn lemma_stored_entities<T: Record>(
    g: GraphModel,
    items: Seq<T::V>,
    n: int,
    holds: spec_fn(EntityModel) -> bool,
)
    requires
        0 <= n <= items.len(),
        forall|i: int| 0 <= i < g.len() ==> holds(#[trigger] g[i]),
        forall|k: int| 0 <= k < items.len() ==> holds(T::entity_of(#[trigger] items[k])),
    ensures
        forall|i: int|
            0 <= i < stored::<T>(g, items, n).len() ==> holds(#[trigger] stored::<T>(g, items, n)[i]),
    decreases n,
{
    if n > 0 {
        lemma_stored_entities::<T>(g, items, n - 1, holds);
        let before = stored::<T>(g, items, n - 1);
        let e = T::entity_of(items[n - 1]);
        let after = stored::<T>(g, items, n);
        assert(after == put_spec(before, e));
        crate::graph::lemma_position_from(before, e.key(), 0);
        assert forall|i: int| 0 <= i < after.len() implies holds(#[trigger] after[i]) by {
            if after[i] != e {
                assert(after[i] == before[i]);
            }
        }
    }
}

/// The position of the last of the first `n` records whose entity is stored
/// under `key`.
pub open spec fn last_stored<T: Record>(items: Seq<T::V>, key: RefModel, n: int) -> Option<int>
    decreases n,
{
    if n <= 0 {
        None
    } else if T::entity_of(items[n - 1]).key() == key {
        Some(n - 1)
    } else {
        last_stored::<T>(items, key, n - 1)
    }
}

/// The record at position `i` is the last one stored under `key` where no
/// later one is stored under it.
pub proof fn lemma_last_stored_at<T: Record>(items: Seq<T::V>, key: RefModel, n: int, i: int)
    requires
        0 <= i < n <= items.len(),
        T::entity_of(items[i]).key() == key,
        forall|k: int| i < k < n ==> T::entity_of(#[trigger] items[k]).key() != key,
    ensures
        last_stored::<T>(items, key, n) == Some(i),
    decreases n,
{
    if i < n - 1 {
        lemma_last_stored_at::<T>(items, key, n - 1, i);
    }
}

/// No record is stored under `key` where the entity of none has that key.
pub proof fn lemma_last_stored_none<T: Record>(items: Seq<T::V>, key: RefModel, n: int)
    requires
        0 <= n <= items.len(),
        forall|k: int| 0 <= k < n ==> T::entity_of(#[trigger] items[k]).key() != key,
    ensures
        last_stored::<T>(items, key, n) is None,
    decreases n,
{
    if n > 0 {
        lemma_last_stored_none::<T>(items, key, n - 1);
    }
}

/// After records were stored, a key leads to the entity of the last record
/// that is stored under it, and to what the graph held before where there is
/// no such record.
pub proof fn lemma_lookup_stored<T: Record>(g: GraphModel, items: Seq<T::V>, n: int, key: RefModel)
    requires
        0 <= n <= items.len(),
    ensures
        lookup(stored::<T>(g, items, n), key) == match last_stored::<T>(items, key, n) {
            Some(k) => Some(T::entity_of(items[k])),
            None => lookup(g, key),
        },
    decreases n,
{
    if n > 0 {
        lemma_lookup_stored::<T>(g, items, n - 1, key);
        let before = stored::<T>(g, items, n - 1);
        let e = T::entity_of(items[n - 1]);
        if e.key() == key {
            law_get_after_put(before, e);
        } else {
            law_put_keeps_others(before, e, key);
        }
    }
}

/// The records of `b` are those of `a` with members added: the lists are of
/// one length, and the entity of each record of `b` is the entity of its
/// counterpart in `a` with members added.
pub open spec fn records_extend<T: Record>(a: Seq<T::V>, b: Seq<T::V>) -> bool {
    &&& a.len() == b.len()
    &&& forall|k: int|
        0 <= k < a.len() ==> entity_extends(T::entity_of(#[trigger] a[k]), T::entity_of(b[k]))
}

/// Records with members added are stored as entities with members added.
pub proof fn lemma_stored_extends<T: Record>(
    g: GraphModel,
    h: GraphModel,
    a: Seq<T::V>,
    b: Seq<T::V>,
    n: int,
)
    requires
        graph_extends(g, h),
        records_extend::<T>(a, b),
        0 <= n <= a.len(),
    ensures
        graph_extends(stored::<T>(g, a, n), stored::<T>(h, b, n)),
    decreases n,
{
    if n > 0 {
        lemma_stored_extends::<T>(g, h, a, b, n - 1);
        let before = stored::<T>(g, a, n - 1);
        let before2 = stored::<T>(h, b, n - 1);
        let e = T::entity_of(a[n - 1]);
        let e2 = T::entity_of(b[n - 1]);
        assert(entity_extends(e, e2));
        lemma_lookup_extends(before, before2, e.key());
        let after = put_spec(before, e);
        let after2 = put_spec(before2, e2);
        assert(e.key() == e2.key());
        assert forall|i: int| 0 <= i < after.len() implies entity_extends(
            #[trigger] after[i],
            after2[i],
        ) by {
            if i < before.len() && position(before, e.key()) != Some(i) {
                assert(after[i] == before[i]);
                assert(after2[i] == before2[i]);
                assert(entity_extends(before[i], before2[i]));
            }
        }
    }
}

/// The position of the record stored under `id`.
pub fn find_index<T: Identified>(items: &Vec<T>, id: &String) -> (found: Option<usize>)
    ensures
        match found {
            Some(i) => index_from::<T>(views(items@), id@, 0) == Some(i as int) && i < items.len(),
            None => index_from::<T>(views(items@), id@, 0) is None,
        },
{
    let mut i: usize = 0;
    while i < items.len()
        invariant
            i <= items.len(),
            index_from::<T>(views(items@), id@, 0) == index_from::<T>(views(items@), id@, i as int),
        decreases items.len() - i,
    {
        assert(views(items@)[i as int] == items[i as int]@);
        if *items[i].id() == *id {
            return Some(i);
        }
        i += 1;
    }
    None
}

/// Stores `item` under its id: the record held under that id is replaced, a
/// new one is added at the end.
pub fn upsert<T: Identified>(items: &mut Vec<T>, item: T)
    ensures
        views(final(items)@) == upsert_spec::<T>(views(old(items)@), item@),
        ids_distinct::<T>(views(old(items)@)) ==> ids_distinct::<T>(views(final(items)@)),
{
    let ghost before = views(items@);
    proof {
        if ids_distinct::<T>(before) {
            lemma_upsert_keeps_ids_distinct::<T>(before, item@);
        }
    }
    let found = find_index(items, item.id());
    match found {
        Some(i) => {
            items.set(i, item);
            assert(views(items@) =~= before.update(i as int, item@));
        },
        None => {
            items.push(item);
            assert(views(items@) =~= before.push(item@));
        },
    }
}

/// Stores the entity of every record in `graph`, in the order of the list.
pub fn store_all<T: Record>(graph: &mut ObjectGraph, items: &Vec<T>)
    ensures
        final(graph)@ == stored_all::<T>(old(graph)@, views(items@)),
        old(graph).wf() ==> final(graph).wf(),
{
    let mut i: usize = 0;
    while i < items.len()
        invariant
            i <= items.len(),
            graph@ == stored::<T>(old(graph)@, views(items@), i as int),
            old(graph).wf() ==> graph.wf(),
        decreases items.len() - i,
    {
        assert(views(items@)[i as int] == items[i as int]@);
        graph.put(items[i].to_entity());
        i += 1;
    }
}

} // verus!
