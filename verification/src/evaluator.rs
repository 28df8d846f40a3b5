//! The permission evaluator: the allow-or-deny decision for a subject, a
//! permission and an object, by the rule list of the object's type. The
//! evaluator reads the graph and changes nothing.

use crate::graph::{lookup, Entity, EntityModel, GraphModel, Link, LinkModel, ObjectGraph};
use crate::reference::{ObjectRef, RefModel};
use crate::rules::{find_rules, Guard, Predicate, PredicateModel, RuleTable, RulesModel};
use crate::text::views;
use vstd::prelude::*;
use vstd::string::*;

verus! {

/// The deepest level of delegation that is still evaluated. A check that lies
/// deeper is not evaluated and grants nothing.
pub const MAX_DEPTH: usize = 32;

/// What the evaluation of a predicate or of a check comes to. `Exhausted`
/// denies as `Denied` does; it says in addition that an evaluation was cut off
/// at the depth limit.
#[derive(Clone, Copy, PartialEq, Eq, Structural, Debug)]
pub enum Verdict {
    Allowed,
    Denied,
    Exhausted,
}

/// The number of levels that a check at the top may use.
pub open spec fn full_budget() -> nat {
    (MAX_DEPTH + 1) as nat
}

/// The verdict of "one or the other": allowed where either is, and cut off
/// where neither is allowed and either was cut off.
pub open spec fn either(a: Verdict, b: Verdict) -> Verdict {
    if a is Allowed || b is Allowed {
        Verdict::Allowed
    } else if a is Exhausted || b is Exhausted {
        Verdict::Exhausted
    } else {
        Verdict::Denied
    }
}

/// The verdict of the check "does `subject` hold `permission` on `object`"
/// with `budget` levels left. A check without budget is cut off; a pair of
/// type and permission without a rule list, and an object that the graph does
/// not hold, are denied; otherwise the rule list of the pair decides.
pub open spec fn check_spec(
    g: GraphModel,
    t: RulesModel,
    subject: Seq<char>,
    permission: Seq<char>,
    object: RefModel,
    budget: nat,
) -> Verdict
    decreases budget, 0nat, 0nat,
{
    if budget == 0 {
        Verdict::Exhausted
    } else {
        match find_rules(t, object.kind, permission) {
            None => Verdict::Denied,
            Some(rules) => match lookup(g, object) {
                None => Verdict::Denied,
                Some(e) => any_spec(g, t, subject, e, rules.predicates, 0, (budget - 1) as nat),
            },
        }
    }
}

/// The verdict of a rule list from position `from` on: its predicates are
/// alternatives.
pub open spec fn any_spec(
    g: GraphModel,
    t: RulesModel,
    subject: Seq<char>,
    e: EntityModel,
    predicates: Seq<PredicateModel>,
    from: int,
    budget: nat,
) -> Verdict
    decreases budget, 3nat, predicates.len() - from,
{
    if from < 0 || from >= predicates.len() {
        Verdict::Denied
    } else {
        either(
            holds_spec(g, t, subject, e, predicates[from], budget),
            any_spec(g, t, subject, e, predicates, from + 1, budget),
        )
    }
}

/// The verdict of one predicate on the entity `e`; `budget` is what the checks
/// that it delegates to may use.
pub open spec fn holds_spec(
    g: GraphModel,
    t: RulesModel,
    subject: Seq<char>,
    e: EntityModel,
    p: PredicateModel,
    budget: nat,
) -> Verdict
    decreases budget, 2nat, 0nat, p,
{
    match p {
        PredicateModel::DirectRelation(name) => if e.has_member(name, subject) {
            Verdict::Allowed
        } else {
            Verdict::Denied
        },
        PredicateModel::ParentDelegate(permission) => match e.container() {
            Some(c) => check_spec(g, t, subject, permission, c, budget),
            None => Verdict::Denied,
        },
        PredicateModel::ConditionalDelegate(guard, if_true, if_false) => match e.container() {
            Some(c) => check_spec(
                g,
                t,
                subject,
                if guard.holds(e) {
                    if_true
                } else {
                    if_false
                },
                c,
                budget,
            ),
            None => Verdict::Denied,
        },
        PredicateModel::Conjunction(a, b) => {
            let first = holds_spec(g, t, subject, e, *a, budget);
            if first is Allowed {
                holds_spec(g, t, subject, e, *b, budget)
            } else {
                first
            }
        },
        PredicateModel::EveryReference(name, permission) => every_spec(
            g,
            t,
            subject,
            e.references,
            name,
            permission,
            0,
            budget,
        ),
    }
}

/// The verdict of "`subject` holds `permission` on every object cited through
/// a reference named `name`", from position `from` of the references on: the
/// verdict of the first check that is not allowed, and allowed where there is
/// none.
pub open spec fn every_spec(
    g: GraphModel,
    t: RulesModel,
    subject: Seq<char>,
    references: Seq<LinkModel>,
    name: Seq<char>,
    permission: Seq<char>,
    from: int,
    budget: nat,
) -> Verdict
    decreases budget, 1nat, references.len() - from,
{
    if from < 0 || from >= references.len() {
        Verdict::Allowed
    } else if references[from].relation != name {
        every_spec(g, t, subject, references, name, permission, from + 1, budget)
    } else {
        let v = check_spec(g, t, subject, permission, references[from].target, budget);
        if v is Allowed {
            every_spec(g, t, subject, references, name, permission, from + 1, budget)
        } else {
            v
        }
    }
}

/// The state that an evaluation threads through its delegations: how deep
/// below the request the current check lies.
#[derive(Clone, Copy, Debug)]
pub struct EvalContext {
    pub depth: usize,
}

impl EvalContext {
    /// The levels that a check in this context may still use.
    pub open spec fn budget(&self) -> nat {
        if self.depth > MAX_DEPTH {
            0
        } else {
            (MAX_DEPTH + 1 - self.depth) as nat
        }
    }

    /// The context of a request.
    pub fn root() -> (ctx: EvalContext)
        ensures
            ctx.depth == 0,
            ctx.budget() == full_budget(),
    {
        EvalContext { depth: 0 }
    }

    /// Whether a check in this context lies past the limit.
    pub fn exhausted(&self) -> (cut: bool)
        ensures
            cut == (self.budget() == 0),
    {
        self.depth > MAX_DEPTH
    }

    /// The context of the checks that a check in this context delegates to:
    /// one level deeper, and no deeper than just past the limit.
    pub fn descend(&self) -> (inner: EvalContext)
        ensures
            inner.depth == if self.depth > MAX_DEPTH {
                self.depth
            } else {
                (self.depth + 1) as usize
            },
            inner.budget() == if self.budget() > 0 {
                self.budget() - 1
            } else {
                0
            },
    {
        if self.depth > MAX_DEPTH {
            *self
        } else {
            EvalContext { depth: self.depth + 1 }
        }
    }
}

impl Guard {
    /// Whether the guard holds of `entity`.
    pub fn holds(&self, entity: &Entity) -> (held: bool)
        ensures
            held == self@.holds(entity@),
    {
        let mut i: usize = 0;
        while i < self.empty_relations.len()
            invariant
                i <= self.empty_relations.len(),
                forall|j: int|
                    0 <= j < i ==> entity@.relation_is_empty(#[trigger] self@.empty_relations[j]),
            decreases self.empty_relations.len() - i,
        {
            assert(self@.empty_relations[i as int] == self.empty_relations[i as int]@);
            if !entity.relation_is_empty(&self.empty_relations[i]) {
                return false;
            }
            i += 1;
        }
        true
    }
}

/// Evaluates the check "does `subject` hold `permission` on `object`" in the
/// context `ctx`.
pub fn check_at(
    graph: &ObjectGraph,
    rules: &RuleTable,
    subject: &String,
    permission: &String,
    object: &ObjectRef,
    ctx: &EvalContext,
) -> (v: Verdict)
    ensures
        v == check_spec(graph@, rules@, subject@, permission@, object@, ctx.budget()),
    decreases ctx.budget(), 0nat, 0nat,
{
    if ctx.exhausted() {
        return Verdict::Exhausted;
    }
    match rules.find(&object.kind, permission) {
        None => Verdict::Denied,
        Some(set) => match graph.find(object) {
            None => Verdict::Denied,
            Some(entity) => {
                let inner = ctx.descend();
                eval_any(graph, rules, subject, entity, &set.predicates, &inner)
            },
        },
    }
}

/// Evaluates a rule list on `entity`: the first predicate that allows decides.
fn eval_any(
    graph: &ObjectGraph,
    rules: &RuleTable,
    subject: &String,
    entity: &Entity,
    predicates: &Vec<Predicate>,
    ctx: &EvalContext,
) -> (v: Verdict)
    ensures
        v == any_spec(graph@, rules@, subject@, entity@, views(predicates@), 0, ctx.budget()),
    decreases ctx.budget(), 3nat, predicates.len(),
{
    let mut seen = Verdict::Denied;
    let mut i: usize = 0;
    while i < predicates.len()
        invariant
            i <= predicates.len(),
            !(seen is Allowed),
            any_spec(graph@, rules@, subject@, entity@, views(predicates@), 0, ctx.budget())
                == either(
                seen,
                any_spec(
                    graph@,
                    rules@,
                    subject@,
                    entity@,
                    views(predicates@),
                    i as int,
                    ctx.budget(),
                ),
            ),
        decreases predicates.len() - i,
    {
        assert(views(predicates@)[i as int] == predicates[i as int]@);
        let v = eval_predicate(graph, rules, subject, entity, &predicates[i], ctx);
        match v {
            Verdict::Allowed => {
                return Verdict::Allowed;
            },
            Verdict::Exhausted => {
                seen = Verdict::Exhausted;
            },
            Verdict::Denied => {},
        }
        i += 1;
    }
    seen
}

/// Evaluates one predicate on `entity`.
fn eval_predicate(
    graph: &ObjectGraph,
    rules: &RuleTable,
    subject: &String,
    entity: &Entity,
    predicate: &Predicate,
    ctx: &EvalContext,
) -> (v: Verdict)
    ensures
        v == holds_spec(graph@, rules@, subject@, entity@, predicate@, ctx.budget()),
    decreases ctx.budget(), 2nat, 0nat, predicate,
{
    match predicate {
        Predicate::DirectRelation(name) => {
            if entity.is_member(name, subject) {
                Verdict::Allowed
            } else {
                Verdict::Denied
            }
        },
        Predicate::ParentDelegate(permission) => {
            match entity.container() {
                Some(container) => check_at(graph, rules, subject, permission, container, ctx),
                None => Verdict::Denied,
            }
        },
        Predicate::ConditionalDelegate(guard, if_true, if_false) => {
            match entity.container() {
                Some(container) => {
                    if guard.holds(entity) {
                        check_at(graph, rules, subject, if_true, container, ctx)
                    } else {
                        check_at(graph, rules, subject, if_false, container, ctx)
                    }
                },
                None => Verdict::Denied,
            }
        },
        Predicate::Conjunction(a, b) => {
            let first = eval_predicate(graph, rules, subject, entity, a, ctx);
            match first {
                Verdict::Allowed => eval_predicate(graph, rules, subject, entity, b, ctx),
                _ => first,
            }
        },
        Predicate::EveryReference(name, permission) => {
            eval_every(graph, rules, subject, &entity.references, name, permission, ctx)
        },
    }
}

/// Evaluates `permission` on every object cited through a reference named
/// `name`; the first check that is not allowed decides.
fn eval_every(
    graph: &ObjectGraph,
    rules: &RuleTable,
    subject: &String,
    references: &Vec<Link>,
    name: &String,
    permission: &String,
    ctx: &EvalContext,
) -> (v: Verdict)
    ensures
        v == every_spec(
            graph@,
            rules@,
            subject@,
            views(references@),
            name@,
            permission@,
            0,
            ctx.budget(),
        ),
    decreases ctx.budget(), 1nat, references.len(),
{
    let mut i: usize = 0;
    while i < references.len()
        invariant
            i <= references.len(),
            every_spec(
                graph@,
                rules@,
                subject@,
                views(references@),
                name@,
                permission@,
                0,
                ctx.budget(),
            ) == every_spec(
                graph@,
                rules@,
                subject@,
                views(references@),
                name@,
                permission@,
                i as int,
                ctx.budget(),
            ),
        decreases references.len() - i,
    {
        let link = &references[i];
        assert(views(references@)[i as int] == link@);
        if link.relation == *name {
            let v = check_at(graph, rules, subject, permission, &link.target, ctx);
            match v {
                Verdict::Allowed => {},
                _ => {
                    return v;
                },
            }
        }
        i += 1;
    }
    Verdict::Allowed
}

} // verus!
