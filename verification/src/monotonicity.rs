//! Monotonicity of grants: a graph that holds more members in its relation
//! lists allows whatever the smaller graph allowed.

use crate::decision::allowed_spec;
use crate::evaluator::{any_spec, check_spec, every_spec, full_budget, holds_spec};
use crate::graph::{
    add_member_spec, lemma_relation_from, lookup, position, position_from, relation_from,
    EntityModel, GraphModel, LinkModel,
};
use crate::reference::RefModel;
use crate::rules::{find_rules, lemma_rules_from, GuardModel, PredicateModel, RulesModel};
use vstd::prelude::*;

verus! {

/// `b` is `a` with members added: the same object with the same edges, and
/// every member of a relation list of `a` is a member of that list in `b`.
pub open spec fn entity_extends(a: EntityModel, b: EntityModel) -> bool {
    &&& a.kind == b.kind
    &&& a.id == b.id
    &&& a.parents == b.parents
    &&& a.references == b.references
    &&& forall|name: Seq<char>, user: Seq<char>| #[trigger]
        a.has_member(name, user) ==> b.has_member(name, user)
}

/// `h` is `g` with members added, entity by entity.
pub open spec fn graph_extends(g: GraphModel, h: GraphModel) -> bool {
    &&& g.len() == h.len()
    &&& forall|i: int| 0 <= i < g.len() ==> entity_extends(#[trigger] g[i], h[i])
}

/// In the graph `h`, whoever holds `strict` on an object holds `ordinary` on
/// it too.
pub open spec fn is_stricter(h: GraphModel, t: RulesModel, strict: Seq<char>, ordinary: Seq<char>) -> bool {
    forall|subject: Seq<char>, object: RefModel, budget: nat|
        #[trigger] check_spec(h, t, subject, strict, object, budget) is Allowed ==> check_spec(
            h,
            t,
            subject,
            ordinary,
            object,
            budget,
        ) is Allowed
}

/// The guard reads the same of every entity of `g` as of its counterpart in
/// `h`.
pub open spec fn guard_agrees(g: GraphModel, h: GraphModel, guard: GuardModel) -> bool {
    forall|i: int| 0 <= i < g.len() ==> guard.holds(#[trigger] g[i]) == guard.holds(h[i])
}

/// Every conditional delegation inside `p` either reads its guard in `h` as in
/// `g`, or chooses, where its guard holds, a permission that is stricter in
/// `h` than the one it chooses where not.
pub open spec fn guards_tighten(g: GraphModel, h: GraphModel, t: RulesModel, p: PredicateModel) -> bool
    decreases p,
{
    match p {
        PredicateModel::ConditionalDelegate(guard, if_true, if_false) => guard_agrees(g, h, guard)
            || is_stricter(h, t, if_true, if_false),
        PredicateModel::Conjunction(a, b) => guards_tighten(g, h, t, *a) && guards_tighten(
            g,
            h,
            t,
            *b,
        ),
        _ => true,
    }
}

/// Every conditional delegation of the table tightens or reads its guard in
/// `h` as in `g`.
pub open spec fn table_tightens(g: GraphModel, h: GraphModel, t: RulesModel) -> bool {
    forall|i: int, j: int|
        0 <= i < t.len() && 0 <= j < t[i].predicates.len() ==> guards_tighten(
            g,
            h,
            t,
            #[trigger] t[i].predicates[j],
        )
}

/// Whether `p` holds no conditional delegation.
pub open spec fn is_unconditional(p: PredicateModel) -> bool
    decreases p,
{
    match p {
        PredicateModel::ConditionalDelegate(_, _, _) => false,
        PredicateModel::Conjunction(a, b) => is_unconditional(*a) && is_unconditional(*b),
        _ => true,
    }
}

/// A predicate without a conditional delegation tightens between any two
/// graphs.
pub proof fn lemma_unconditional_tightens(
    g: GraphModel,
    h: GraphModel,
    t: RulesModel,
    p: PredicateModel,
)
    requires
        is_unconditional(p),
    ensures
        guards_tighten(g, h, t, p),
    decreases p,
{
    match p {
        PredicateModel::Conjunction(a, b) => {
            lemma_unconditional_tightens(g, h, t, *a);
            lemma_unconditional_tightens(g, h, t, *b);
        },
        _ => {},
    }
}

/// An entity with the same relation lists, of which some hold more members, is
/// the entity with members added.
pub proof fn lemma_longer_lists_extend(a: EntityModel, b: EntityModel)
    requires
        a.kind == b.kind,
        a.id == b.id,
        a.parents == b.parents,
        a.references == b.references,
        a.relations.len() == b.relations.len(),
        forall|i: int|
            0 <= i < a.relations.len() ==> (#[trigger] a.relations[i]).name == b.relations[i].name,
        forall|i: int, user: Seq<char>|
            0 <= i < a.relations.len() && (#[trigger] a.relations[i]).members.contains(user)
                ==> #[trigger] b.relations[i].members.contains(user),
    ensures
        entity_extends(a, b),
{
    assert forall|name: Seq<char>, user: Seq<char>| #[trigger]
        a.has_member(name, user) implies b.has_member(name, user) by {
        let i = choose|i: int|
            0 <= i < a.relations.len() && #[trigger] a.relations[i].name == name
                && a.relations[i].members.contains(user);
        assert(b.relations[i].members.contains(user));
        assert(b.relations[i].name == name);
    }
}

/// A relation list is empty exactly when nobody is a member of it.
pub proof fn lemma_empty_relation(e: EntityModel, name: Seq<char>)
    ensures
        e.relation_is_empty(name) <==> forall|user: Seq<char>| !e.has_member(name, user),
{
    if !e.relation_is_empty(name) {
        let i = choose|i: int|
            0 <= i < e.relations.len() && #[trigger] e.relations[i].name == name
                && e.relations[i].members.len() != 0;
        let user = e.relations[i].members[0];
        assert(e.relations[i].members.contains(user));
        assert(e.has_member(name, user));
    }
    if exists|user: Seq<char>| e.has_member(name, user) {
        let user = choose|user: Seq<char>| e.has_member(name, user);
        let i = choose|i: int|
            0 <= i < e.relations.len() && #[trigger] e.relations[i].name == name
                && e.relations[i].members.contains(user);
        assert(e.relations[i].members.len() > 0);
    }
}

/// A guard that holds of the larger entity holds of the smaller one.
pub proof fn lemma_guard_extends(a: EntityModel, b: EntityModel, guard: GuardModel)
    requires
        entity_extends(a, b),
        guard.holds(b),
    ensures
        guard.holds(a),
{
    assert forall|i: int| 0 <= i < guard.empty_relations.len() implies a.relation_is_empty(
        #[trigger] guard.empty_relations[i],
    ) by {
        let name = guard.empty_relations[i];
        lemma_empty_relation(a, name);
        lemma_empty_relation(b, name);
        assert(b.relation_is_empty(name));
        assert forall|user: Seq<char>| !a.has_member(name, user) by {
            if a.has_member(name, user) {
                assert(b.has_member(name, user));
            }
        }
    }
}

/// Both graphs hold the same keys at the same positions.
pub proof fn lemma_position_extends(g: GraphModel, h: GraphModel, key: RefModel, from: int)
    requires
        graph_extends(g, h),
        0 <= from <= g.len(),
    ensures
        position_from(g, key, from) == position_from(h, key, from),
        position_from(g, key, from) matches Some(i) ==> from <= i < g.len(),
    decreases g.len() - from,
{
    if from < g.len() {
        assert(entity_extends(g[from], h[from]));
        if g[from].key() != key {
            lemma_position_extends(g, h, key, from + 1);
        }
    }
}

/// What the smaller graph holds under a key, the larger graph holds under it
/// with members added.
pub proof fn lemma_lookup_extends(g: GraphModel, h: GraphModel, key: RefModel)
    requires
        graph_extends(g, h),
    ensures
        position(g, key) == position(h, key),
        position(g, key) matches Some(i) ==> 0 <= i < g.len(),
        lookup(g, key) is Some <==> lookup(h, key) is Some,
        lookup(g, key) is Some ==> entity_extends(lookup(g, key)->0, lookup(h, key)->0),
{
    lemma_position_extends(g, h, key, 0);
    if position(g, key) is Some {
        let i = position(g, key)->0;
        assert(entity_extends(g[i], h[i]));
    }
}

/// A check that the smaller graph allows is allowed by the larger one.
pub proof fn lemma_check_monotone(
    g: GraphModel,
    h: GraphModel,
    t: RulesModel,
    subject: Seq<char>,
    permission: Seq<char>,
    object: RefModel,
    budget: nat,
)
    requires
        graph_extends(g, h),
        table_tightens(g, h, t),
        check_spec(g, t, subject, permission, object, budget) is Allowed,
    ensures
        check_spec(h, t, subject, permission, object, budget) is Allowed,
    decreases budget, 0nat, 0nat,
{
    lemma_lookup_extends(g, h, object);
    lemma_rules_from(t, object.kind, permission, 0);
    let rules = find_rules(t, object.kind, permission)->0;
    let at = position(g, object)->0;
    lemma_any_monotone(g, h, t, subject, at, rules.predicates, 0, (budget - 1) as nat);
}

/// A rule list that allows on an entity of the smaller graph allows on its
/// counterpart in the larger one.
pub proof fn lemma_any_monotone(
    g: GraphModel,
    h: GraphModel,
    t: RulesModel,
    subject: Seq<char>,
    at: int,
    predicates: Seq<PredicateModel>,
    from: int,
    budget: nat,
)
    requires
        graph_extends(g, h),
        table_tightens(g, h, t),
        0 <= at < g.len(),
        forall|j: int|
            0 <= j < predicates.len() ==> guards_tighten(g, h, t, #[trigger] predicates[j]),
        any_spec(g, t, subject, g[at], predicates, from, budget) is Allowed,
    ensures
        any_spec(h, t, subject, h[at], predicates, from, budget) is Allowed,
    decreases budget, 3nat, predicates.len() - from,
{
    if holds_spec(g, t, subject, g[at], predicates[from], budget) is Allowed {
        lemma_holds_monotone(g, h, t, subject, at, predicates[from], budget);
    } else {
        lemma_any_monotone(g, h, t, subject, at, predicates, from + 1, budget);
    }
}

/// A predicate that holds on an entity of the smaller graph holds on its
/// counterpart in the larger one.
pub proof fn lemma_holds_monotone(
    g: GraphModel,
    h: GraphModel,
    t: RulesModel,
    subject: Seq<char>,
    at: int,
    p: PredicateModel,
    budget: nat,
)
    requires
        graph_extends(g, h),
        table_tightens(g, h, t),
        0 <= at < g.len(),
        guards_tighten(g, h, t, p),
        holds_spec(g, t, subject, g[at], p, budget) is Allowed,
    ensures
        holds_spec(h, t, subject, h[at], p, budget) is Allowed,
    decreases budget, 2nat, 0nat, p,
{
    let e = g[at];
    let e2 = h[at];
    assert(entity_extends(e, e2));
    match p {
        PredicateModel::DirectRelation(name) => {
            assert(e.has_member(name, subject));
        },
        PredicateModel::ParentDelegate(permission) => {
            lemma_check_monotone(g, h, t, subject, permission, e.container()->0, budget);
        },
        PredicateModel::ConditionalDelegate(guard, if_true, if_false) => {
            let c = e.container()->0;
            if guard.holds(e2) {
                lemma_guard_extends(e, e2, guard);
                lemma_check_monotone(g, h, t, subject, if_true, c, budget);
            } else if guard.holds(e) {
                // The guard reads differently in the two graphs, so the
                // delegation tightens.
                lemma_check_monotone(g, h, t, subject, if_true, c, budget);
                assert(check_spec(h, t, subject, if_true, c, budget) is Allowed);
                assert(is_stricter(h, t, if_true, if_false));
            } else {
                lemma_check_monotone(g, h, t, subject, if_false, c, budget);
            }
        },
        PredicateModel::Conjunction(a, b) => {
            lemma_holds_monotone(g, h, t, subject, at, *a, budget);
            lemma_holds_monotone(g, h, t, subject, at, *b, budget);
        },
        PredicateModel::EveryReference(name, permission) => {
            lemma_every_monotone(g, h, t, subject, e.references, name, permission, 0, budget);
        },
    }
}

/// A check over all cited objects that the smaller graph allows is allowed by
/// the larger one.
pub proof fn lemma_every_monotone(
    g: GraphModel,
    h: GraphModel,
    t: RulesModel,
    subject: Seq<char>,
    references: Seq<LinkModel>,
    name: Seq<char>,
    permission: Seq<char>,
    from: int,
    budget: nat,
)
    requires
        graph_extends(g, h),
        table_tightens(g, h, t),
        every_spec(g, t, subject, references, name, permission, from, budget) is Allowed,
    ensures
        every_spec(h, t, subject, references, name, permission, from, budget) is Allowed,
    decreases budget, 1nat, references.len() - from,
{
    if 0 <= from < references.len() {
        if references[from].relation == name {
            lemma_check_monotone(g, h, t, subject, permission, references[from].target, budget);
        }
        lemma_every_monotone(g, h, t, subject, references, name, permission, from + 1, budget);
    }
}

/// Granting a relation adds a member and takes nothing away.
pub proof fn lemma_add_member_extends(e: EntityModel, name: Seq<char>, user: Seq<char>)
    ensures
        entity_extends(e, add_member_spec(e, name, user)),
        add_member_spec(e, name, user).has_member(name, user),
{
    let e2 = add_member_spec(e, name, user);
    if !e.has_member(name, user) {
        lemma_relation_from(e.relations, name, 0);
        match relation_from(e.relations, name, 0) {
            Some(i) => {
                assert(e2.relations[i].name == name);
                assert(e2.relations[i].members[e.relations[i].members.len() as int] == user);
                assert(e2.relations[i].members.contains(user));
                assert forall|n: Seq<char>, u: Seq<char>| #[trigger]
                    e.has_member(n, u) implies e2.has_member(n, u) by {
                    let k = choose|k: int|
                        0 <= k < e.relations.len() && #[trigger] e.relations[k].name == n
                            && e.relations[k].members.contains(u);
                    if k == i {
                        let m = choose|m: int|
                            0 <= m < e.relations[k].members.len() && e.relations[k].members[m]
                                == u;
                        assert(e2.relations[k].members[m] == u);
                    }
                    assert(e2.relations[k].name == n && e2.relations[k].members.contains(u));
                }
            },
            None => {
                let last = e.relations.len() as int;
                assert(e2.relations[last].name == name);
                assert(e2.relations[last].members[0] == user);
                assert(e2.relations[last].members.contains(user));
                assert forall|n: Seq<char>, u: Seq<char>| #[trigger]
                    e.has_member(n, u) implies e2.has_member(n, u) by {
                    let k = choose|k: int|
                        0 <= k < e.relations.len() && #[trigger] e.relations[k].name == n
                            && e.relations[k].members.contains(u);
                    assert(e2.relations[k].name == n && e2.relations[k].members.contains(u));
                }
            },
        }
    }
}

/// Monotonicity of grants: what a graph allows, it still allows after a
/// subject was added to a relation list of one of its entities, given that
/// every conditional delegation of the table either reads its guard as before
/// or tightens.
pub proof fn law_grant_is_monotone(
    g: GraphModel,
    t: RulesModel,
    at: int,
    name: Seq<char>,
    user: Seq<char>,
    subject: RefModel,
    permission: Seq<char>,
    object: RefModel,
)
    requires
        0 <= at < g.len(),
        table_tightens(g, g.update(at, add_member_spec(g[at], name, user)), t),
        allowed_spec(g, t, subject, permission, object),
    ensures
        allowed_spec(g.update(at, add_member_spec(g[at], name, user)), t, subject, permission, object),
{
    let h = g.update(at, add_member_spec(g[at], name, user));
    lemma_add_member_extends(g[at], name, user);
    assert(graph_extends(g, h)) by {
        assert forall|i: int| 0 <= i < g.len() implies entity_extends(#[trigger] g[i], h[i]) by {
            if i != at {
                assert(h[i] == g[i]);
            }
        }
    }
    lemma_lookup_extends(g, h, object);
    lemma_check_monotone(g, h, t, subject.id, permission, object, full_budget());
}

/// Whether a guard inside `p` reads the relation list `name`.
pub open spec fn reads_relation(p: PredicateModel, name: Seq<char>) -> bool
    decreases p,
{
    match p {
        PredicateModel::ConditionalDelegate(guard, _, _) => guard.empty_relations.contains(name),
        PredicateModel::Conjunction(a, b) => reads_relation(*a, name) || reads_relation(*b, name),
        _ => false,
    }
}

/// Whether a guard of the table reads the relation list `name`.
pub open spec fn table_reads_relation(t: RulesModel, name: Seq<char>) -> bool {
    exists|i: int, j: int|
        0 <= i < t.len() && 0 <= j < t[i].predicates.len() && reads_relation(
            #[trigger] t[i].predicates[j],
            name,
        )
}

/// Granting a relation leaves every other relation list as it was.
pub proof fn lemma_add_member_keeps_others(
    e: EntityModel,
    name: Seq<char>,
    user: Seq<char>,
    other: Seq<char>,
)
    requires
        other != name,
    ensures
        add_member_spec(e, name, user).relation_is_empty(other) == e.relation_is_empty(other),
{
    let e2 = add_member_spec(e, name, user);
    if !e.has_member(name, user) {
        lemma_relation_from(e.relations, name, 0);
        match relation_from(e.relations, name, 0) {
            Some(i) => {
                assert forall|k: int| 0 <= k < e.relations.len() && k != i implies e2.relations[k]
                    == e.relations[k] by {}
                if !e.relation_is_empty(other) {
                    let k = choose|k: int|
                        0 <= k < e.relations.len() && #[trigger] e.relations[k].name == other
                            && e.relations[k].members.len() != 0;
                    assert(e2.relations[k].name == other);
                }
                if !e2.relation_is_empty(other) {
                    let k = choose|k: int|
                        0 <= k < e2.relations.len() && #[trigger] e2.relations[k].name == other
                            && e2.relations[k].members.len() != 0;
                    assert(e.relations[k].name == other);
                }
            },
            None => {
                let last = e.relations.len() as int;
                assert forall|k: int| 0 <= k < last implies e2.relations[k] == e.relations[k] by {}
                if !e.relation_is_empty(other) {
                    let k = choose|k: int|
                        0 <= k < e.relations.len() && #[trigger] e.relations[k].name == other
                            && e.relations[k].members.len() != 0;
                    assert(e2.relations[k].name == other);
                }
                if !e2.relation_is_empty(other) {
                    let k = choose|k: int|
                        0 <= k < e2.relations.len() && #[trigger] e2.relations[k].name == other
                            && e2.relations[k].members.len() != 0;
                    assert(k != last);
                    assert(e.relations[k].name == other);
                }
            },
        }
    }
}

/// A predicate whose guards do not read the relation list `name` tightens
/// between a graph and the graph after a grant of `name`.
pub proof fn lemma_unread_tightens(
    g: GraphModel,
    t: RulesModel,
    at: int,
    name: Seq<char>,
    user: Seq<char>,
    p: PredicateModel,
)
    requires
        0 <= at < g.len(),
        !reads_relation(p, name),
    ensures
        guards_tighten(g, g.update(at, add_member_spec(g[at], name, user)), t, p),
    decreases p,
{
    let h = g.update(at, add_member_spec(g[at], name, user));
    match p {
        PredicateModel::ConditionalDelegate(guard, _, _) => {
            assert forall|i: int| 0 <= i < g.len() implies guard.holds(#[trigger] g[i])
                == guard.holds(h[i]) by {
                if i == at {
                    assert forall|k: int| 0 <= k < guard.empty_relations.len() implies g[at].relation_is_empty(
                    #[trigger] guard.empty_relations[k]) == h[at].relation_is_empty(
                        guard.empty_relations[k],
                    ) by {
                        assert(guard.empty_relations.contains(guard.empty_relations[k]));
                        lemma_add_member_keeps_others(g[at], name, user, guard.empty_relations[k]);
                    }
                } else {
                    assert(h[i] == g[i]);
                }
            }
        },
        PredicateModel::Conjunction(a, b) => {
            lemma_unread_tightens(g, t, at, name, user, *a);
            lemma_unread_tightens(g, t, at, name, user, *b);
        },
        _ => {},
    }
}

/// Monotonicity of grants for every relation that no guard reads: what a
/// graph allows, it still allows after a subject was added to such a relation
/// list of one of its entities.
pub proof fn law_unguarded_grant_is_monotone(
    g: GraphModel,
    t: RulesModel,
    at: int,
    name: Seq<char>,
    user: Seq<char>,
    subject: RefModel,
    permission: Seq<char>,
    object: RefModel,
)
    requires
        0 <= at < g.len(),
        !table_reads_relation(t, name),
        allowed_spec(g, t, subject, permission, object),
    ensures
        allowed_spec(g.update(at, add_member_spec(g[at], name, user)), t, subject, permission, object),
{
    let h = g.update(at, add_member_spec(g[at], name, user));
    assert forall|i: int, j: int| 0 <= i < t.len() && 0 <= j < t[i].predicates.len() implies guards_tighten(
        g,
        h,
        t,
        #[trigger] t[i].predicates[j],
    ) by {
        lemma_unread_tightens(g, t, at, name, user, t[i].predicates[j]);
    }
    law_grant_is_monotone(g, t, at, name, user, subject, permission, object);
}

/// Monotonicity of grants between any two graphs of which the second is the
/// first with members added.
pub proof fn law_larger_graph_allows_more(
    g: GraphModel,
    h: GraphModel,
    t: RulesModel,
    subject: RefModel,
    permission: Seq<char>,
    object: RefModel,
)
    requires
        graph_extends(g, h),
        table_tightens(g, h, t),
        allowed_spec(g, t, subject, permission, object),
    ensures
        allowed_spec(h, t, subject, permission, object),
{
    lemma_lookup_extends(g, h, object);
    lemma_check_monotone(g, h, t, subject.id, permission, object, full_budget());
}

} // verus!
