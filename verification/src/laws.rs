//! What holds of every graph, every rule table and every request.

use crate::decision::{allowed_spec, outcome_spec, request_outcome, Outcome, RequestModel};
use crate::evaluator::{any_spec, check_spec, every_spec, holds_spec};
use crate::graph::{
    add_member_spec, lemma_position_from, lookup, position, put_spec, EntityModel, GraphModel, LinkModel, };
use crate::reference::{format_spec, has_separator, lemma_parse_format, parse_spec, RefModel};
use crate::rules::{find_rules, GuardModel, PredicateModel, RulesModel};
use vstd::prelude::*;

verus! {

/// A permission without a rule list for the object's type is granted at no
/// depth.
pub proof fn law_unregistered_pair_is_not_allowed(
    g: GraphModel,
    t: RulesModel,
    subject: Seq<char>,
    permission: Seq<char>,
    object: RefModel,
    budget: nat,
)
    requires
        find_rules(t, object.kind, permission) is None,
    ensures
        !(check_spec(g, t, subject, permission, object, budget) is Allowed),
{
}

/// A question whose pair of object type and permission has no rule list is
/// answered with no, and ends as an unknown permission.
pub proof fn law_unknown_permission_is_denied(
    g: GraphModel,
    t: RulesModel,
    subject: RefModel,
    permission: Seq<char>,
    object: RefModel,
)
    requires
        find_rules(t, object.kind, permission) is None,
    ensures
        !allowed_spec(g, t, subject, permission, object),
        outcome_spec(g, t, subject, permission, object) == Outcome::UnknownPermission,
{
}

/// A request for a permission that has no rule list for the type that the
/// request names is denied.
pub proof fn law_unknown_request_is_denied(g: GraphModel, t: RulesModel, request: RequestModel)
    requires
        parse_spec(request.object) matches Some(object) ==> find_rules(
            t,
            object.kind,
            request.relation,
        ) is None,
    ensures
        !(request_outcome(g, t, request) is Granted),
{
}

/// A request that writes its subject and its object as `type:id` ends as the
/// question about them does, wherever no type and no id holds a separator.
pub proof fn law_request_of_formatted_references(
    g: GraphModel,
    t: RulesModel,
    subject: RefModel,
    permission: Seq<char>,
    object: RefModel,
)
    requires
        !has_separator(subject.kind),
        !has_separator(subject.id),
        !has_separator(object.kind),
        !has_separator(object.id),
    ensures
        request_outcome(
            g,
            t,
            RequestModel {
                user: format_spec(subject),
                relation: permission,
                object: format_spec(object),
            },
        ) == outcome_spec(g, t, subject, permission, object),
{
    lemma_parse_format(subject);
    lemma_parse_format(object);
}

/// A request whose subject or object lacks the separator is denied.
pub proof fn law_malformed_request_is_denied(g: GraphModel, t: RulesModel, request: RequestModel)
    requires
        parse_spec(request.user) is None || parse_spec(request.object) is None,
    ensures
        request_outcome(g, t, request) == Outcome::ParseError,
{
}

/// A question about an object that the graph does not hold is answered with
/// no.
pub proof fn law_missing_object_is_denied(
    g: GraphModel,
    t: RulesModel,
    subject: RefModel,
    permission: Seq<char>,
    object: RefModel,
)
    requires
        lookup(g, object) is None,
    ensures
        !allowed_spec(g, t, subject, permission, object),
{
}

/// A conjunction is allowed exactly when both of its predicates are.
pub proof fn law_conjunction(
    g: GraphModel,
    t: RulesModel,
    subject: Seq<char>,
    e: EntityModel,
    a: PredicateModel,
    b: PredicateModel,
    budget: nat,
)
    ensures
        holds_spec(g, t, subject, e, PredicateModel::Conjunction(Box::new(a), Box::new(b)), budget)
            is Allowed <==> holds_spec(g, t, subject, e, a, budget) is Allowed && holds_spec(
            g,
            t,
            subject,
            e,
            b,
            budget,
        ) is Allowed,
{
}

/// The check over all cited objects is allowed exactly when the check of each
/// of them is: one cited object that is not allowed denies the whole.
pub proof fn law_every_reference(
    g: GraphModel,
    t: RulesModel,
    subject: Seq<char>,
    references: Seq<LinkModel>,
    name: Seq<char>,
    permission: Seq<char>,
    from: int,
    budget: nat,
)
    requires
        0 <= from <= references.len(),
    ensures
        every_spec(g, t, subject, references, name, permission, from, budget) is Allowed
            <==> forall|i: int|
            from <= i < references.len() && (#[trigger] references[i]).relation == name
                ==> check_spec(g, t, subject, permission, references[i].target, budget)
                is Allowed,
    decreases references.len() - from,
{
    if from < references.len() {
        law_every_reference(g, t, subject, references, name, permission, from + 1, budget);
        if references[from].relation == name && !(check_spec(
            g,
            t,
            subject,
            permission,
            references[from].target,
            budget,
        ) is Allowed) {
            assert(references[from].relation == name);
        }
    }
}

/// A rule list is allowed exactly when one of its predicates is.
pub proof fn law_rule_list_is_disjunction(
    g: GraphModel,
    t: RulesModel,
    subject: Seq<char>,
    e: EntityModel,
    predicates: Seq<PredicateModel>,
    from: int,
    budget: nat,
)
    requires
        0 <= from <= predicates.len(),
    ensures
        any_spec(g, t, subject, e, predicates, from, budget) is Allowed <==> exists|i: int|
            from <= i < predicates.len() && holds_spec(
                g,
                t,
                subject,
                e,
                #[trigger] predicates[i],
                budget,
            ) is Allowed,
    decreases predicates.len() - from,
{
    if from < predicates.len() {
        law_rule_list_is_disjunction(g, t, subject, e, predicates, from + 1, budget);
        if holds_spec(g, t, subject, e, predicates[from], budget) is Allowed {
            assert(from <= from < predicates.len() && holds_spec(
                g,
                t,
                subject,
                e,
                predicates[from],
                budget,
            ) is Allowed);
        }
    }
}

/// Where the guard holds of an object, the conditional delegation stands for
/// the check of its stricter permission on the container: a subject that lacks
/// that one is not allowed through it, whatever else the subject holds on the
/// container.
pub proof fn law_confidential_default(
    g: GraphModel,
    t: RulesModel,
    subject: Seq<char>,
    e: EntityModel,
    guard: GuardModel,
    if_true: Seq<char>,
    if_false: Seq<char>,
    budget: nat,
)
    requires
        guard.holds(e),
        e.container() is Some,
    ensures
        holds_spec(
            g,
            t,
            subject,
            e,
            PredicateModel::ConditionalDelegate(guard, if_true, if_false),
            budget,
        ) == check_spec(g, t, subject, if_true, e.container()->0, budget),
{
}

/// Where the guard does not hold of an object, the conditional delegation
/// stands for the check of its ordinary permission on the container.
pub proof fn law_open_default(
    g: GraphModel,
    t: RulesModel,
    subject: Seq<char>,
    e: EntityModel,
    guard: GuardModel,
    if_true: Seq<char>,
    if_false: Seq<char>,
    budget: nat,
)
    requires
        !guard.holds(e),
        e.container() is Some,
    ensures
        holds_spec(
            g,
            t,
            subject,
            e,
            PredicateModel::ConditionalDelegate(guard, if_true, if_false),
            budget,
        ) == check_spec(g, t, subject, if_false, e.container()->0, budget),
{
}

/// Whether a predicate names `subject` directly or not at all: it is a direct
/// relation that `subject` is no member of.
pub open spec fn is_missed_relation(e: EntityModel, subject: Seq<char>, p: PredicateModel) -> bool {
    p matches PredicateModel::DirectRelation(name) && !e.has_member(name, subject)
}

/// Whether a predicate is a conditional delegation whose guard holds of `e`.
pub open spec fn is_guarded_delegate(e: EntityModel, p: PredicateModel, strict: Seq<char>) -> bool {
    p matches PredicateModel::ConditionalDelegate(guard, if_true, _) && guard.holds(e) && if_true
        == strict
}

/// The confidential default: on an object of which the guards hold, a subject
/// that is in none of the object's relation lists and does not hold the strict
/// permission on the container is not allowed, whatever ordinary permission
/// it holds there.
pub proof fn law_confidential_object_denies(
    g: GraphModel,
    t: RulesModel,
    subject: Seq<char>,
    e: EntityModel,
    predicates: Seq<PredicateModel>,
    strict: Seq<char>,
    from: int,
    budget: nat,
)
    requires
        0 <= from <= predicates.len(),
        e.container() matches Some(c) && !(check_spec(g, t, subject, strict, c, budget)
            is Allowed),
        forall|i: int|
            0 <= i < predicates.len() ==> is_missed_relation(e, subject, #[trigger] predicates[i])
                || is_guarded_delegate(e, predicates[i], strict),
    ensures
        !(any_spec(g, t, subject, e, predicates, from, budget) is Allowed),
    decreases predicates.len() - from,
{
    if from < predicates.len() {
        law_confidential_object_denies(g, t, subject, e, predicates, strict, from + 1, budget);
        let p = predicates[from];
        assert(is_missed_relation(e, subject, p) || is_guarded_delegate(e, p, strict));
        match p {
            PredicateModel::DirectRelation(name) => {
                assert(holds_spec(g, t, subject, e, p, budget) is Denied);
            },
            PredicateModel::ConditionalDelegate(guard, if_true, if_false) => {
                assert(holds_spec(g, t, subject, e, p, budget) == check_spec(
                    g,
                    t,
                    subject,
                    strict,
                    e.container()->0,
                    budget,
                ));
            },
            _ => {},
        }
    }
}

/// A direct relation in the rule list grants: a member of the relation list is
/// allowed, wherever the check still has budget.
pub proof fn law_member_is_allowed(
    g: GraphModel,
    t: RulesModel,
    subject: Seq<char>,
    permission: Seq<char>,
    object: RefModel,
    name: Seq<char>,
    budget: nat,
)
    requires
        budget > 0,
        find_rules(t, object.kind, permission) matches Some(rules) && rules.predicates.contains(
            PredicateModel::DirectRelation(name),
        ),
        lookup(g, object) matches Some(e) && e.has_member(name, subject),
    ensures
        check_spec(g, t, subject, permission, object, budget) is Allowed,
{
    let rules = find_rules(t, object.kind, permission)->0;
    let e = lookup(g, object)->0;
    let p = PredicateModel::DirectRelation(name);
    let i = choose|i: int| 0 <= i < rules.predicates.len() && rules.predicates[i] == p;
    law_rule_list_is_disjunction(g, t, subject, e, rules.predicates, 0, (budget - 1) as nat);
    assert(holds_spec(g, t, subject, e, rules.predicates[i], (budget - 1) as nat) is Allowed);
}

/// What was put is what is found under its key.
pub proof fn law_get_after_put(g: GraphModel, e: EntityModel)
    ensures
        lookup(put_spec(g, e), e.key()) == Some(e),
{
    lemma_position_from(g, e.key(), 0);
    let h = put_spec(g, e);
    lemma_position_from(h, e.key(), 0);
    match position(g, e.key()) {
        Some(i) => {
            assert(h[i].key() == e.key());
            assert forall|j: int| 0 <= j < i implies h[j].key() != e.key() by {
                assert(h[j] == g[j]);
            }
        },
        None => {
            assert(h[g.len() as int].key() == e.key());
            assert forall|j: int| 0 <= j < g.len() implies h[j].key() != e.key() by {
                assert(h[j] == g[j]);
            }
        },
    }
}

/// A put leaves what is stored under every other key as it was.
pub proof fn law_put_keeps_others(g: GraphModel, e: EntityModel, key: RefModel)
    requires
        key != e.key(),
    ensures
        lookup(put_spec(g, e), key) == lookup(g, key),
{
    let h = put_spec(g, e);
    lemma_position_from(g, e.key(), 0);
    lemma_position_from(g, key, 0);
    lemma_position_from(h, key, 0);
    assert forall|j: int| 0 <= j < g.len() implies (h[j].key() == key <==> g[j].key() == key) by {
        if position(g, e.key()) == Some(j) {
            assert(h[j] == e);
        } else {
            assert(h[j] == g[j]);
        }
    }
    if position(g, e.key()) is None {
        assert(h[g.len() as int] == e);
    }
    match position(g, key) {
        Some(i) => {
            assert(h[i].key() == key);
            assert(position(h, key) == Some(i));
            assert(h[i] == g[i]);
        },
        None => {
            assert(position(h, key) is None);
        },
    }
}

/// A put is an upsert: to put the same entity a second time changes nothing.
pub proof fn law_put_is_idempotent(g: GraphModel, e: EntityModel)
    ensures
        put_spec(put_spec(g, e), e) == put_spec(g, e),
{
    let h = put_spec(g, e);
    lemma_position_from(g, e.key(), 0);
    lemma_position_from(h, e.key(), 0);
    match position(g, e.key()) {
        Some(i) => {
            assert(h[i].key() == e.key());
            assert forall|j: int| 0 <= j < i implies h[j].key() != e.key() by {
                assert(h[j] == g[j]);
            }
            assert(position(h, e.key()) == Some(i));
            assert(h.update(i, e) =~= h);
        },
        None => {
            let n = g.len() as int;
            assert(h[n].key() == e.key());
            assert forall|j: int| 0 <= j < n implies h[j].key() != e.key() by {
                assert(h[j] == g[j]);
            }
            assert(position(h, e.key()) == Some(n));
            assert(h.update(n, e) =~= h);
        },
    }
}

/// Relation lists are sets: to grant a relation a second time changes
/// nothing.
pub proof fn law_grant_is_idempotent(e: EntityModel, name: Seq<char>, user: Seq<char>)
    ensures
        add_member_spec(add_member_spec(e, name, user), name, user) == add_member_spec(
            e,
            name,
            user,
        ),
{
    crate::monotonicity::lemma_add_member_extends(e, name, user);
}

} // verus!
