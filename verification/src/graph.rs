//! The object graph: typed entities, their relation lists and the edges
//! between them. The store holds facts only; it decides nothing.

use crate::reference::{ObjectRef, RefModel};
use crate::text::{clone_strings, contains_text, views};
use vstd::prelude::*;
use vstd::string::*;

verus! {

/// A named edge from an entity to another object.
#[derive(Debug)]
pub struct Link {
    pub relation: String,
    pub target: ObjectRef,
}

/// The mathematical value of a [`Link`].
pub struct LinkModel {
    pub relation: Seq<char>,
    pub target: RefModel,
}

impl View for Link {
    type V = LinkModel;

    open spec fn view(&self) -> LinkModel {
        LinkModel { relation: self.relation@, target: self.target@ }
    }
}

/// A named list of user ids attached to an entity.
#[derive(Debug)]
pub struct Relation {
    pub name: String,
    pub members: Vec<String>,
}

/// The mathematical value of a [`Relation`].
pub struct RelationModel {
    pub name: Seq<char>,
    pub members: Seq<Seq<char>>,
}

impl View for Relation {
    type V = RelationModel;

    open spec fn view(&self) -> RelationModel {
        RelationModel { name: self.name@, members: views(self.members@) }
    }
}

/// A node of the graph: a user, a container or a resource.
///
/// `parents` holds the containment edges; the first of them leads to the
/// entity's container. `references` holds the edges to objects that the entity
/// cites without being contained in them. `content` is the payload that a
/// filtered read hands out.
#[derive(Debug)]
pub struct Entity {
    pub kind: String,
    pub id: String,
    pub parents: Vec<Link>,
    pub relations: Vec<Relation>,
    pub references: Vec<Link>,
    pub content: String,
}

/// The mathematical value of an [`Entity`].
pub struct EntityModel {
    pub kind: Seq<char>,
    pub id: Seq<char>,
    pub parents: Seq<LinkModel>,
    pub relations: Seq<RelationModel>,
    pub references: Seq<LinkModel>,
    pub content: Seq<char>,
}

impl View for Entity {
    type V = EntityModel;

    open spec fn view(&self) -> EntityModel {
        EntityModel {
            kind: self.kind@,
            id: self.id@,
            parents: views(self.parents@),
            relations: views(self.relations@),
            references: views(self.references@),
            content: self.content@,
        }
    }
}

/// The model of a graph: its entities in the order of the store.
pub type GraphModel = Seq<EntityModel>;

impl EntityModel {
    /// The reference under which the entity is stored.
    pub open spec fn key(self) -> RefModel {
        RefModel { kind: self.kind, id: self.id }
    }

    /// Whether `user` is a member of the relation `name` of this entity.
    pub open spec fn has_member(self, name: Seq<char>, user: Seq<char>) -> bool {
        exists|i: int|
            0 <= i < self.relations.len() && #[trigger] self.relations[i].name == name
                && self.relations[i].members.contains(user)
    }

    /// Whether the relation `name` of this entity has no member at all.
    pub open spec fn relation_is_empty(self, name: Seq<char>) -> bool {
        forall|i: int|
            0 <= i < self.relations.len() && #[trigger] self.relations[i].name == name
                ==> self.relations[i].members.len() == 0
    }

    /// The object that contains this entity, where it has one.
    pub open spec fn container(self) -> Option<RefModel> {
        if self.parents.len() > 0 {
            Some(self.parents[0].target)
        } else {
            None
        }
    }
}

/// The position of the first entity at or after `from` that is stored under
/// `key`.
pub open spec fn position_from(g: GraphModel, key: RefModel, from: int) -> Option<int>
    decreases g.len() - from,
{
    if from < 0 || from >= g.len() {
        None
    } else if g[from].key() == key {
        Some(from)
    } else {
        position_from(g, key, from + 1)
    }
}

/// The position of the entity stored under `key`.
pub open spec fn position(g: GraphModel, key: RefModel) -> Option<int> {
    position_from(g, key, 0)
}

/// The entity stored under `key`.
pub open spec fn lookup(g: GraphModel, key: RefModel) -> Option<EntityModel> {
    match position(g, key) {
        Some(i) => Some(g[i]),
        None => None,
    }
}

/// The graph after an upsert of `e`: the entity stored under the same key is
/// replaced where it stands, a new one is added at the end.
pub open spec fn put_spec(g: GraphModel, e: EntityModel) -> GraphModel {
    match position(g, e.key()) {
        Some(i) => g.update(i, e),
        None => g.push(e),
    }
}

/// No two entities of the graph are stored under one key.
pub open spec fn keys_distinct(g: GraphModel) -> bool {
    forall|i: int, j: int|
        0 <= i < g.len() && 0 <= j < g.len() && i != j ==> #[trigger] g[i].key() != #[trigger] g[j].key()
}

/// What `position_from` finds is the first match at or after `from`.
pub proof fn lemma_position_from(g: GraphModel, key: RefModel, from: int)
    requires
        0 <= from <= g.len(),
    ensures
        match position_from(g, key, from) {
            Some(i) => from <= i < g.len() && g[i].key() == key && forall|j: int|
                from <= j < i ==> g[j].key() != key,
            None => forall|j: int| from <= j < g.len() ==> g[j].key() != key,
        },
    decreases g.len() - from,
{
    if from < g.len() && g[from].key() != key {
        lemma_position_from(g, key, from + 1);
    }
}

impl Link {
    /// An edge named `relation` to the object `kind:id`.
    pub fn new(relation: &str, kind: &str, id: &str) -> (l: Link)
        ensures
            l@ == (LinkModel { relation: relation@, target: RefModel { kind: kind@, id: id@ } }),
    {
        Link { relation: relation.to_string(), target: ObjectRef::new(kind, id) }
    }

    /// An owned copy of this edge.
    pub fn duplicate(&self) -> (l: Link)
        ensures
            l@ == self@,
    {
        Link { relation: self.relation.clone(), target: self.target.duplicate() }
    }
}

impl Relation {
    /// A relation list with the given members.
    pub fn new(name: &str, members: Vec<String>) -> (r: Relation)
        ensures
            r@ == (RelationModel { name: name@, members: views(members@) }),
    {
        Relation { name: name.to_string(), members }
    }

    /// An owned copy of this relation list.
    pub fn duplicate(&self) -> (r: Relation)
        ensures
            r@ == self@,
    {
        Relation { name: self.name.clone(), members: clone_strings(&self.members) }
    }
}

/// The position of the first relation list at or after `from` that is named
/// `name`.
pub open spec fn relation_from(rels: Seq<RelationModel>, name: Seq<char>, from: int) -> Option<int>
    decreases rels.len() - from,
{
    if from < 0 || from >= rels.len() {
        None
    } else if rels[from].name == name {
        Some(from)
    } else {
        relation_from(rels, name, from + 1)
    }
}

/// What `relation_from` finds is the first relation list of that name at or
/// after `from`.
pub proof fn lemma_relation_from(rels: Seq<RelationModel>, name: Seq<char>, from: int)
    requires
        0 <= from <= rels.len(),
    ensures
        match relation_from(rels, name, from) {
            Some(i) => from <= i < rels.len() && rels[i].name == name && forall|j: int|
                from <= j < i ==> rels[j].name != name,
            None => forall|j: int| from <= j < rels.len() ==> rels[j].name != name,
        },
    decreases rels.len() - from,
{
    if from < rels.len() && rels[from].name != name {
        lemma_relation_from(rels, name, from + 1);
    }
}

/// The entity after `user` was granted the relation `name`. Relation lists are
/// sets: a user who is a member already is not added again.
pub open spec fn add_member_spec(e: EntityModel, name: Seq<char>, user: Seq<char>) -> EntityModel {
    if e.has_member(name, user) {
        e
    } else {
        match relation_from(e.relations, name, 0) {
            Some(i) => EntityModel {
                relations: e.relations.update(
                    i,
                    RelationModel { name: name, members: e.relations[i].members.push(user) },
                ),
                ..e
            },
            None => EntityModel {
                relations: e.relations.push(RelationModel { name: name, members: seq![user] }),
                ..e
            },
        }
    }
}

impl Entity {
    /// An entity without edges, relation lists or content.
    pub fn new(kind: &str, id: &str) -> (e: Entity)
        ensures
            e@ == (EntityModel {
                kind: kind@,
                id: id@,
                parents: Seq::empty(),
                relations: Seq::empty(),
                references: Seq::empty(),
                content: Seq::empty(),
            }),
    {
        let e = Entity {
            kind: kind.to_string(),
            id: id.to_string(),
            parents: Vec::new(),
            relations: Vec::new(),
            references: Vec::new(),
            content: String::new(),
        };
        assert(views(e.parents@) =~= Seq::<LinkModel>::empty());
        assert(views(e.relations@) =~= Seq::<RelationModel>::empty());
        assert(views(e.references@) =~= Seq::<LinkModel>::empty());
        e
    }

    /// Adds a containment edge; the first one added leads to the container.
    pub fn add_parent(&mut self, link: Link)
        ensures
            final(self)@ == (EntityModel { parents: old(self)@.parents.push(link@), ..old(self)@ }),
    {
        self.parents.push(link);
        assert(views(self.parents@) =~= views(old(self).parents@).push(link@));
    }

    /// Adds an edge to a cited object.
    pub fn add_reference(&mut self, link: Link)
        ensures
            final(self)@ == (EntityModel {
                references: old(self)@.references.push(link@),
                ..old(self)@
            }),
    {
        self.references.push(link);
        assert(views(self.references@) =~= views(old(self).references@).push(link@));
    }

    /// Adds a relation list as it stands.
    pub fn add_relation(&mut self, relation: Relation)
        ensures
            final(self)@ == (EntityModel {
                relations: old(self)@.relations.push(relation@),
                ..old(self)@
            }),
    {
        self.relations.push(relation);
        assert(views(self.relations@) =~= views(old(self).relations@).push(relation@));
    }

    /// Replaces the payload.
    pub fn set_content(&mut self, content: &str)
        ensures
            final(self)@ == (EntityModel { content: content@, ..old(self)@ }),
    {
        self.content = content.to_string();
    }

    /// Whether `user` is a member of the relation `name`.
    pub fn is_member(&self, name: &String, user: &String) -> (found: bool)
        ensures
            found == self@.has_member(name@, user@),
    {
        let mut i: usize = 0;
        while i < self.relations.len()
            invariant
                i <= self.relations.len(),
                forall|j: int|
                    0 <= j < i && #[trigger] self@.relations[j].name == name@
                        ==> !self@.relations[j].members.contains(user@),
            decreases self.relations.len() - i,
        {
            let relation = &self.relations[i];
            assert(self@.relations[i as int] == relation@);
            if relation.name == *name && contains_text(&relation.members, user) {
                assert(self@.relations[i as int].name == name@);
                return true;
            }
            i += 1;
        }
        false
    }

    /// Whether the relation `name` has no member.
    pub fn relation_is_empty(&self, name: &String) -> (empty: bool)
        ensures
            empty == self@.relation_is_empty(name@),
    {
        let mut i: usize = 0;
        while i < self.relations.len()
            invariant
                i <= self.relations.len(),
                forall|j: int|
                    0 <= j < i && #[trigger] self@.relations[j].name == name@
                        ==> self@.relations[j].members.len() == 0,
            decreases self.relations.len() - i,
        {
            let relation = &self.relations[i];
            assert(self@.relations[i as int] == relation@);
            if relation.name == *name && relation.members.len() > 0 {
                assert(self@.relations[i as int].name == name@);
                return false;
            }
            i += 1;
        }
        true
    }

    /// The position of the first relation list named `name`.
    fn relation_position(&self, name: &String) -> (found: Option<usize>)
        ensures
            match found {
                Some(i) => relation_from(self@.relations, name@, 0) == Some(i as int) && i
                    < self.relations.len(),
                None => relation_from(self@.relations, name@, 0) is None,
            },
    {
        let mut i: usize = 0;
        while i < self.relations.len()
            invariant
                i <= self.relations.len(),
                relation_from(self@.relations, name@, 0) == relation_from(
                    self@.relations,
                    name@,
                    i as int,
                ),
            decreases self.relations.len() - i,
        {
            assert(self@.relations[i as int] == self.relations[i as int]@);
            if self.relations[i].name == *name {
                return Some(i);
            }
            i += 1;
        }
        None
    }

    /// Grants `user` the relation `name`. Granting it a second time changes
    /// nothing.
    pub fn add_member(&mut self, name: &str, user: &str)
        ensures
            final(self)@ == add_member_spec(old(self)@, name@, user@),
    {
        let name = name.to_string();
        let user = user.to_string();
        if self.is_member(&name, &user) {
            return ;
        }
        match self.relation_position(&name) {
            Some(i) => {
                let mut members = clone_strings(&self.relations[i].members);
                assert(self@.relations[i as int] == self.relations[i as int]@);
                members.push(user);
                assert(views(members@) =~= old(self)@.relations[i as int].members.push(user@));
                let relation = Relation { name, members };
                self.relations.set(i, relation);
                assert(views(self.relations@) =~= old(self)@.relations.update(i as int, relation@));
            },
            None => {
                let mut members: Vec<String> = Vec::new();
                members.push(user);
                assert(views(members@) =~= seq![user@]);
                let relation = Relation { name, members };
                self.relations.push(relation);
                assert(views(self.relations@) =~= old(self)@.relations.push(relation@));
            },
        }
    }

    /// The reference under which this entity is stored.
    pub fn key(&self) -> (r: ObjectRef)
        ensures
            r@ == self@.key(),
    {
        ObjectRef { kind: self.kind.clone(), id: self.id.clone() }
    }

    /// The object that contains this entity, where it has one.
    pub fn container(&self) -> (c: Option<&ObjectRef>)
        ensures
            match c {
                Some(r) => self@.container() == Some(r@),
                None => self@.container() is None,
            },
    {
        if self.parents.len() > 0 {
            assert(self@.parents[0] == self.parents[0]@);
            Some(&self.parents[0].target)
        } else {
            None
        }
    }
}

/// The store of the graph. Entities are kept in the order in which their keys
/// first arrived.
#[derive(Debug)]
pub struct ObjectGraph {
    entities: Vec<Entity>,
}

impl View for ObjectGraph {
    type V = GraphModel;

    closed spec fn view(&self) -> GraphModel {
        views(self.entities@)
    }
}

impl ObjectGraph {
    /// No key is held twice: every graph built by `new` and `put` is well
    /// formed.
    pub open spec fn wf(&self) -> bool {
        keys_distinct(self@)
    }

    /// The empty graph.
    pub fn new() -> (g: ObjectGraph)
        ensures
            g@ == Seq::<EntityModel>::empty(),
            g.wf(),
    {
        let g = ObjectGraph { entities: Vec::new() };
        assert(views(g.entities@) =~= Seq::<EntityModel>::empty());
        g
    }

    /// The number of entities.
    pub fn len(&self) -> (n: usize)
        ensures
            n == self@.len(),
    {
        self.entities.len()
    }

    /// The entity at position `i` of the store.
    pub fn entity(&self, i: usize) -> (e: &Entity)
        requires
            i < self@.len(),
        ensures
            e@ == self@[i as int],
    {
        &self.entities[i]
    }

    /// The position of the entity stored under `key`.
    pub fn position(&self, key: &ObjectRef) -> (found: Option<usize>)
        ensures
            match found {
                Some(i) => position(self@, key@) == Some(i as int) && i < self@.len(),
                None => position(self@, key@) is None,
            },
    {
        let mut i: usize = 0;
        while i < self.entities.len()
            invariant
                i <= self.entities.len(),
                position(self@, key@) == position_from(self@, key@, i as int),
            decreases self.entities.len() - i,
        {
            let e = &self.entities[i];
            assert(self@[i as int] == e@);
            if e.kind == key.kind && e.id == key.id {
                return Some(i);
            }
            i += 1;
        }
        None
    }

    /// The entity stored under `kind:id`; `None` where there is none.
    pub fn get(&self, kind: &str, id: &str) -> (found: Option<&Entity>)
        ensures
            match found {
                Some(e) => lookup(self@, RefModel { kind: kind@, id: id@ }) == Some(e@),
                None => lookup(self@, RefModel { kind: kind@, id: id@ }) is None,
            },
    {
        let key = ObjectRef::new(kind, id);
        self.find(&key)
    }

    /// The entity stored under `key`; `None` where there is none.
    pub fn find(&self, key: &ObjectRef) -> (found: Option<&Entity>)
        ensures
            match found {
                Some(e) => lookup(self@, key@) == Some(e@),
                None => lookup(self@, key@) is None,
            },
    {
        match self.position(key) {
            Some(i) => Some(&self.entities[i]),
            None => None,
        }
    }

    /// Stores `entity` under its type and id: an entity held under the same key
    /// is replaced where it stands, a new one is added at the end.
    pub fn put(&mut self, entity: Entity)
        ensures
            final(self)@ == put_spec(old(self)@, entity@),
            old(self).wf() ==> final(self).wf(),
    {
        let key = entity.key();
        let ghost before = self@;
        proof {
            lemma_position_from(before, key@, 0);
        }
        match self.position(&key) {
            Some(i) => {
                self.entities.set(i, entity);
                assert(views(self.entities@) =~= before.update(i as int, entity@));
            },
            None => {
                self.entities.push(entity);
                assert(views(self.entities@) =~= before.push(entity@));
            },
        }
    }
}

} // verus!
