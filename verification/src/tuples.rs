//! The tuple materializer: the flat list of `(user, relation, object)` triples
//! that a graph stands for. The list is derived from the graph on every call
//! and is never consulted by the evaluator.

use crate::graph::{Entity, EntityModel, GraphModel, Link, LinkModel, ObjectGraph, Relation, RelationModel};
use crate::reference::format_spec;
use crate::text::views;
use vstd::prelude::*;
use vstd::string::*;

verus! {

/// One edge of the relation graph in the shape that a tuple store takes:
/// all three parts are written `type:id`, but for the relation's name.
#[derive(Debug)]
pub struct OpenFGATuple {
    pub user: String,
    pub relation: String,
    pub object: String,
}

/// The mathematical value of an [`OpenFGATuple`].
pub struct TupleModel {
    pub user: Seq<char>,
    pub relation: Seq<char>,
    pub object: Seq<char>,
}

impl View for OpenFGATuple {
    type V = TupleModel;

    open spec fn view(&self) -> TupleModel {
        TupleModel { user: self.user@, relation: self.relation@, object: self.object@ }
    }
}

/// The text `user:<id>` by which a tuple names a member of a relation list.
pub open spec fn user_text(id: Seq<char>) -> Seq<char> {
    "user:"@ + id
}

/// The triple of one edge of the object written `object`: the edge's target
/// stands in the place of the user.
pub open spec fn link_tuple(l: LinkModel, object: Seq<char>) -> TupleModel {
    TupleModel { user: format_spec(l.target), relation: l.relation, object: object }
}

/// The triples of a list of edges, in their order.
pub open spec fn link_tuples(links: Seq<LinkModel>, object: Seq<char>) -> Seq<TupleModel> {
    links.map_values(|l: LinkModel| link_tuple(l, object))
}

/// The triple that grants `member` the relation `name` on `object`.
pub open spec fn member_tuple(name: Seq<char>, member: Seq<char>, object: Seq<char>) -> TupleModel {
    TupleModel { user: user_text(member), relation: name, object: object }
}

/// The triples of one relation list: one for each member, in their order.
pub open spec fn member_tuples(r: RelationModel, object: Seq<char>) -> Seq<TupleModel> {
    r.members.map_values(|m: Seq<char>| member_tuple(r.name, m, object))
}

/// The triples of the first `n` relation lists.
pub open spec fn relation_tuples(rels: Seq<RelationModel>, object: Seq<char>, n: int) -> Seq<
    TupleModel,
>
    decreases n,
{
    if n <= 0 {
        Seq::empty()
    } else {
        relation_tuples(rels, object, n - 1) + member_tuples(rels[n - 1], object)
    }
}

/// The triples of one entity: its containment edges, then the members of its
/// relation lists, then its references.
pub open spec fn entity_tuples(e: EntityModel) -> Seq<TupleModel> {
    let object = format_spec(e.key());
    link_tuples(e.parents, object) + relation_tuples(e.relations, object, e.relations.len() as int)
        + link_tuples(e.references, object)
}

/// The triples of the first `n` entities of a graph.
pub open spec fn graph_tuples_upto(g: GraphModel, n: int) -> Seq<TupleModel>
    decreases n,
{
    if n <= 0 {
        Seq::empty()
    } else {
        graph_tuples_upto(g, n - 1) + entity_tuples(g[n - 1])
    }
}

/// The triples of a graph, entity by entity in the order of the store.
pub open spec fn graph_tuples(g: GraphModel) -> Seq<TupleModel> {
    graph_tuples_upto(g, g.len() as int)
}

/// A triple is among those of the first `n` relation lists exactly when one of
/// these lists has a member that it names.
pub proof fn lemma_relation_tuples_contain(
    rels: Seq<RelationModel>,
    object: Seq<char>,
    n: int,
    t: TupleModel,
)
    requires
        0 <= n <= rels.len(),
    ensures
        relation_tuples(rels, object, n).contains(t) <==> exists|i: int, j: int|
            0 <= i < n && 0 <= j < rels[i].members.len() && t == member_tuple(
                rels[i].name,
                #[trigger] rels[i].members[j],
                object,
            ),
    decreases n,
{
    if n > 0 {
        lemma_relation_tuples_contain(rels, object, n - 1, t);
        let before = relation_tuples(rels, object, n - 1);
        let last = member_tuples(rels[n - 1], object);
        let all = relation_tuples(rels, object, n);
        assert(all == before + last);
        if all.contains(t) {
            let k = choose|k: int| 0 <= k < all.len() && all[k] == t;
            if k < before.len() {
                assert(before[k] == t);
                assert(before.contains(t));
            } else {
                let j = k - before.len();
                assert(last[j] == t);
                assert(t == member_tuple(rels[n - 1].name, rels[n - 1].members[j], object));
            }
        }
        if exists|i: int, j: int|
            0 <= i < n && 0 <= j < rels[i].members.len() && t == member_tuple(
                rels[i].name,
                #[trigger] rels[i].members[j],
                object,
            ) {
            let (i, j) = choose|i: int, j: int|
                0 <= i < n && 0 <= j < rels[i].members.len() && t == member_tuple(
                    rels[i].name,
                    #[trigger] rels[i].members[j],
                    object,
                );
            if i < n - 1 {
                assert(before.contains(t));
                let k = choose|k: int| 0 <= k < before.len() && before[k] == t;
                assert(all[k] == t);
            } else {
                assert(last[j] == t);
                assert(all[before.len() + j] == t);
            }
        }
    }
}

/// A triple is among those of the first `n` entities exactly when it is among
/// those of one of them: the list stands for a set, whatever its order.
pub proof fn lemma_graph_tuples_contain(g: GraphModel, n: int, t: TupleModel)
    requires
        0 <= n <= g.len(),
    ensures
        graph_tuples_upto(g, n).contains(t) <==> exists|i: int|
            0 <= i < n && #[trigger] entity_tuples(g[i]).contains(t),
    decreases n,
{
    if n > 0 {
        lemma_graph_tuples_contain(g, n - 1, t);
        let before = graph_tuples_upto(g, n - 1);
        let last = entity_tuples(g[n - 1]);
        let all = graph_tuples_upto(g, n);
        assert(all == before + last);
        if all.contains(t) {
            let k = choose|k: int| 0 <= k < all.len() && all[k] == t;
            if k < before.len() {
                assert(before[k] == t);
                assert(before.contains(t));
            } else {
                assert(last[k - before.len()] == t);
                assert(entity_tuples(g[n - 1]).contains(t));
            }
        }
        if exists|i: int| 0 <= i < n && #[trigger] entity_tuples(g[i]).contains(t) {
            let i = choose|i: int| 0 <= i < n && #[trigger] entity_tuples(g[i]).contains(t);
            if i < n - 1 {
                assert(before.contains(t));
                let k = choose|k: int| 0 <= k < before.len() && before[k] == t;
                assert(all[k] == t);
            } else {
                let k = choose|k: int| 0 <= k < last.len() && last[k] == t;
                assert(all[before.len() + k] == t);
            }
        }
    }
}

/// Appends the triples of `links` to `out`.
fn push_link_tuples(out: &mut Vec<OpenFGATuple>, links: &Vec<Link>, object: &String)
    ensures
        views(final(out)@) == views(old(out)@) + link_tuples(views(links@), object@),
{
    let mut i: usize = 0;
    assert(views(out@) =~= views(old(out)@) + link_tuples(views(links@), object@).take(0));
    while i < links.len()
        invariant
            i <= links.len(),
            views(out@) == views(old(out)@) + link_tuples(views(links@), object@).take(i as int),
        decreases links.len() - i,
    {
        let link = &links[i];
        let tuple = OpenFGATuple {
            user: link.target.format(),
            relation: link.relation.clone(),
            object: object.clone(),
        };
        assert(tuple@ == link_tuple(views(links@)[i as int], object@));
        let ghost before = views(out@);
        out.push(tuple);
        assert(views(out@) =~= before.push(tuple@));
        assert(views(out@) =~= views(old(out)@) + link_tuples(views(links@), object@).take(
            i as int + 1,
        ));
        i += 1;
    }
    assert(link_tuples(views(links@), object@).take(i as int) =~= link_tuples(
        views(links@),
        object@,
    ));
}

/// Appends the triples of one relation list to `out`.
fn push_member_tuples(out: &mut Vec<OpenFGATuple>, relation: &Relation, object: &String)
    ensures
        views(final(out)@) == views(old(out)@) + member_tuples(relation@, object@),
{
    let mut i: usize = 0;
    assert(views(out@) =~= views(old(out)@) + member_tuples(relation@, object@).take(0));
    while i < relation.members.len()
        invariant
            i <= relation.members.len(),
            views(out@) == views(old(out)@) + member_tuples(relation@, object@).take(i as int),
        decreases relation.members.len() - i,
    {
        let tuple = OpenFGATuple {
            user: String::from_str("user:").concat(relation.members[i].as_str()),
            relation: relation.name.clone(),
            object: object.clone(),
        };
        assert(tuple@ == member_tuple(relation@.name, relation@.members[i as int], object@));
        let ghost before = views(out@);
        out.push(tuple);
        assert(views(out@) =~= before.push(tuple@));
        assert(views(out@) =~= views(old(out)@) + member_tuples(relation@, object@).take(
            i as int + 1,
        ));
        i += 1;
    }
    assert(member_tuples(relation@, object@).take(i as int) =~= member_tuples(relation@, object@));
}

/// Appends the triples of one entity to `out`.
fn push_entity_tuples(out: &mut Vec<OpenFGATuple>, entity: &Entity)
    ensures
        views(final(out)@) == views(old(out)@) + entity_tuples(entity@),
{
    let object = entity.key().format();
    push_link_tuples(out, &entity.parents, &object);
    let ghost start = views(out@);
    let mut i: usize = 0;
    assert(views(out@) =~= start + relation_tuples(entity@.relations, object@, 0));
    while i < entity.relations.len()
        invariant
            i <= entity.relations.len(),
            views(out@) == start + relation_tuples(entity@.relations, object@, i as int),
        decreases entity.relations.len() - i,
    {
        let ghost before = views(out@);
        assert(entity@.relations[i as int] == entity.relations[i as int]@);
        push_member_tuples(out, &entity.relations[i], &object);
        assert(views(out@) =~= start + relation_tuples(entity@.relations, object@, i as int + 1));
        i += 1;
    }
    let ghost middle = views(out@);
    push_link_tuples(out, &entity.references, &object);
    assert(views(out@) =~= views(old(out)@) + entity_tuples(entity@));
}

/// The triples of one entity: one for each containment edge, one for each
/// member of each relation list, one for each reference.
pub fn materialize_entity(entity: &Entity) -> (tuples: Vec<OpenFGATuple>)
    ensures
        views(tuples@) == entity_tuples(entity@),
{
    let mut out: Vec<OpenFGATuple> = Vec::new();
    push_entity_tuples(&mut out, entity);
    assert(views(out@) =~= entity_tuples(entity@));
    out
}

/// The triples of the whole graph, entity by entity in the order of the
/// store. A consumer may rely on which triples occur, not on where.
pub fn materialize(graph: &ObjectGraph) -> (tuples: Vec<OpenFGATuple>)
    ensures
        views(tuples@) == graph_tuples(graph@),
{
    let mut out: Vec<OpenFGATuple> = Vec::new();
    let mut i: usize = 0;
    assert(views(out@) =~= graph_tuples_upto(graph@, 0));
    while i < graph.len()
        invariant
            i <= graph@.len(),
            views(out@) == graph_tuples_upto(graph@, i as int),
        decreases graph@.len() - i,
    {
        push_entity_tuples(&mut out, graph.entity(i));
        i += 1;
    }
    out
}

/// The triples of the first `i` entities are the beginning of the triples of
/// the first `n`, and the triples of entity `i` follow them.
pub proof fn lemma_tuple_at(g: GraphModel, n: int, i: int, j: int)
    requires
        0 <= i < n <= g.len(),
        0 <= j < entity_tuples(g[i]).len(),
    ensures
        graph_tuples_upto(g, i).len() + j < graph_tuples_upto(g, n).len(),
        graph_tuples_upto(g, n)[graph_tuples_upto(g, i).len() + j] == entity_tuples(g[i])[j],
    decreases n,
{
    if i < n - 1 {
        lemma_tuple_at(g, n - 1, i, j);
    }
}

/// A place in the triples of a graph: the next triple is number `offset`
/// among those of entity number `entity`. A cursor walks the triples one by
/// one without deriving them all, and a new cursor starts over.
#[derive(Debug, Clone, Copy)]
pub struct TupleCursor {
    entity: usize,
    offset: usize,
}

impl TupleCursor {
    /// Whether the cursor points into the triples of `g` or at their end.
    pub closed spec fn fits(&self, g: GraphModel) -> bool {
        &&& self.entity <= g.len()
        &&& self.entity < g.len() ==> self.offset <= entity_tuples(g[self.entity as int]).len()
        &&& self.entity == g.len() ==> self.offset == 0
    }

    /// The number of triples of `g` that lie before the cursor.
    pub closed spec fn passed(&self, g: GraphModel) -> int {
        graph_tuples_upto(g, self.entity as int).len() + self.offset
    }

    /// The cursor before the first triple; it fits every graph.
    pub fn start() -> (cursor: TupleCursor)
        ensures
            forall|g: GraphModel| #[trigger] cursor.fits(g) && cursor.passed(g) == 0,
    {
        TupleCursor { entity: 0, offset: 0 }
    }

    /// Hands out the triple at the cursor and moves the cursor past it;
    /// `None` at the end of the triples.
    pub fn next(&mut self, graph: &ObjectGraph) -> (tuple: Option<OpenFGATuple>)
        ensures
            old(self).fits(graph@) ==> final(self).fits(graph@) && match tuple {
                Some(t) => {
                    &&& 0 <= old(self).passed(graph@) < graph_tuples(graph@).len()
                    &&& t@ == graph_tuples(graph@)[old(self).passed(graph@)]
                    &&& final(self).passed(graph@) == old(self).passed(graph@) + 1
                },
                None => {
                    &&& old(self).passed(graph@) == graph_tuples(graph@).len()
                    &&& final(self).passed(graph@) == old(self).passed(graph@)
                },
            },
    {
        while self.entity < graph.len()
            invariant
                old(self).fits(graph@) ==> self.fits(graph@) && self.passed(graph@) == old(
                    self,
                ).passed(graph@),
            decreases graph@.len() - self.entity,
        {
            let mut tuples = materialize_entity(graph.entity(self.entity));
            if self.offset < tuples.len() {
                proof {
                    if old(self).fits(graph@) {
                        lemma_tuple_at(
                            graph@,
                            graph@.len() as int,
                            self.entity as int,
                            self.offset as int,
                        );
                    }
                }
                let ghost all = views(tuples@);
                let tuple = tuples.swap_remove(self.offset);
                assert(tuple@ == all[self.offset as int]);
                self.offset = self.offset + 1;
                return Some(tuple);
            }
            self.entity = self.entity + 1;
            self.offset = 0;
        }
        None
    }
}

} // verus!
