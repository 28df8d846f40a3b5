//! The rule table: for each pair of object type and permission an ordered list
//! of predicates, any one of which grants the permission. A domain's policy is
//! a value of this table.

use crate::graph::EntityModel;
use crate::text::{clone_strings, views};
use vstd::prelude::*;
use vstd::string::*;

verus! {

/// A condition on an object's own state: it holds when every relation list
/// named in it is empty.
#[derive(Debug)]
pub struct Guard {
    pub empty_relations: Vec<String>,
}

/// The mathematical value of a [`Guard`].
pub struct GuardModel {
    pub empty_relations: Seq<Seq<char>>,
}

impl View for Guard {
    type V = GuardModel;

    open spec fn view(&self) -> GuardModel {
        GuardModel { empty_relations: views(self.empty_relations@) }
    }
}

impl GuardModel {
    /// Whether the guard holds of `e`: none of the named relation lists of `e`
    /// has a member.
    pub open spec fn holds(self, e: EntityModel) -> bool {
        forall|i: int|
            0 <= i < self.empty_relations.len() ==> e.relation_is_empty(
                #[trigger] self.empty_relations[i],
            )
    }
}

/// One way in which a permission is granted.
#[derive(Debug)]
pub enum Predicate {
    /// The subject is a member of the object's relation list of this name.
    DirectRelation(String),
    /// The subject holds this permission on the object's container.
    ParentDelegate(String),
    /// The subject holds, on the object's container, the second permission
    /// where the guard holds of the object and the third where it does not.
    ConditionalDelegate(Guard, String, String),
    /// Both predicates hold.
    Conjunction(Box<Predicate>, Box<Predicate>),
    /// The subject holds the permission (second) on every object that the
    /// object cites through a reference of this name (first).
    EveryReference(String, String),
}

/// The mathematical value of a [`Predicate`].
pub enum PredicateModel {
    DirectRelation(Seq<char>),
    ParentDelegate(Seq<char>),
    ConditionalDelegate(GuardModel, Seq<char>, Seq<char>),
    Conjunction(Box<PredicateModel>, Box<PredicateModel>),
    EveryReference(Seq<char>, Seq<char>),
}

/// The mathematical value of a predicate.
pub open spec fn predicate_model(p: Predicate) -> PredicateModel
    decreases p,
{
    match p {
        Predicate::DirectRelation(name) => PredicateModel::DirectRelation(name@),
        Predicate::ParentDelegate(permission) => PredicateModel::ParentDelegate(permission@),
        Predicate::ConditionalDelegate(guard, if_true, if_false) => {
            PredicateModel::ConditionalDelegate(guard@, if_true@, if_false@)
        },
        Predicate::Conjunction(a, b) => PredicateModel::Conjunction(
            Box::new(predicate_model(*a)),
            Box::new(predicate_model(*b)),
        ),
        Predicate::EveryReference(name, permission) => PredicateModel::EveryReference(
            name@,
            permission@,
        ),
    }
}

impl View for Predicate {
    type V = PredicateModel;

    open spec fn view(&self) -> PredicateModel {
        predicate_model(*self)
    }
}

/// The rule list of one pair of object type and permission. A list that is not
/// `exported` serves delegation from other rules only: a request cannot name
/// it.
#[derive(Debug)]
pub struct RuleSet {
    pub object_kind: String,
    pub permission: String,
    pub exported: bool,
    pub predicates: Vec<Predicate>,
}

/// The mathematical value of a [`RuleSet`].
pub struct RuleSetModel {
    pub object_kind: Seq<char>,
    pub permission: Seq<char>,
    pub exported: bool,
    pub predicates: Seq<PredicateModel>,
}

impl View for RuleSet {
    type V = RuleSetModel;

    open spec fn view(&self) -> RuleSetModel {
        RuleSetModel {
            object_kind: self.object_kind@,
            permission: self.permission@,
            exported: self.exported,
            predicates: views(self.predicates@),
        }
    }
}

/// The model of a rule table: its rule lists in the order of registration.
pub type RulesModel = Seq<RuleSetModel>;

impl RuleSetModel {
    /// Whether this is the rule list of `permission` on objects of `kind`.
    pub open spec fn is_for(self, kind: Seq<char>, permission: Seq<char>) -> bool {
        self.object_kind == kind && self.permission == permission
    }
}

/// A rule list that requests may name.
pub open spec fn exported(kind: Seq<char>, permission: Seq<char>, predicates: Seq<PredicateModel>) -> RuleSetModel {
    RuleSetModel { object_kind: kind, permission: permission, exported: true, predicates: predicates }
}

/// A rule list that only other rules delegate to.
pub open spec fn delegated(kind: Seq<char>, permission: Seq<char>, predicates: Seq<PredicateModel>) -> RuleSetModel {
    RuleSetModel { object_kind: kind, permission: permission, exported: false, predicates: predicates }
}

/// The subject is a member of the relation list `name`.
pub open spec fn direct(name: Seq<char>) -> PredicateModel {
    PredicateModel::DirectRelation(name)
}

/// The subject holds `permission` on the container.
pub open spec fn parent(permission: Seq<char>) -> PredicateModel {
    PredicateModel::ParentDelegate(permission)
}

/// The subject holds on the container `if_true` where all the relation lists
/// `names` of the object are empty, and `if_false` where not.
pub open spec fn conditional(names: Seq<Seq<char>>, if_true: Seq<char>, if_false: Seq<char>) -> PredicateModel {
    PredicateModel::ConditionalDelegate(GuardModel { empty_relations: names }, if_true, if_false)
}

/// Both `a` and `b` hold.
pub open spec fn both(a: PredicateModel, b: PredicateModel) -> PredicateModel {
    PredicateModel::Conjunction(Box::new(a), Box::new(b))
}

/// The subject holds `permission` on every object cited through `name`.
pub open spec fn every(name: Seq<char>, permission: Seq<char>) -> PredicateModel {
    PredicateModel::EveryReference(name, permission)
}

/// The position of the first rule list at or after `from` that is registered
/// for the pair.
pub open spec fn rules_from(t: RulesModel, kind: Seq<char>, permission: Seq<char>, from: int) -> Option<
    int,
>
    decreases t.len() - from,
{
    if from < 0 || from >= t.len() {
        None
    } else if t[from].is_for(kind, permission) {
        Some(from)
    } else {
        rules_from(t, kind, permission, from + 1)
    }
}

/// The rule list registered for the pair.
pub open spec fn find_rules(t: RulesModel, kind: Seq<char>, permission: Seq<char>) -> Option<
    RuleSetModel,
> {
    match rules_from(t, kind, permission, 0) {
        Some(i) => Some(t[i]),
        None => None,
    }
}

/// The table after `rules` was registered: the list registered for the same
/// pair is replaced where it stands, a new one is added at the end.
pub open spec fn register_spec(t: RulesModel, rules: RuleSetModel) -> RulesModel {
    match rules_from(t, rules.object_kind, rules.permission, 0) {
        Some(i) => t.update(i, rules),
        None => t.push(rules),
    }
}

/// What `rules_from` finds is the first rule list of the pair at or after
/// `from`.
pub proof fn lemma_rules_from(t: RulesModel, kind: Seq<char>, permission: Seq<char>, from: int)
    requires
        0 <= from <= t.len(),
    ensures
        match rules_from(t, kind, permission, from) {
            Some(i) => from <= i < t.len() && t[i].is_for(kind, permission) && forall|j: int|
                from <= j < i ==> !t[j].is_for(kind, permission),
            None => forall|j: int| from <= j < t.len() ==> !t[j].is_for(kind, permission),
        },
    decreases t.len() - from,
{
    if from < t.len() && !t[from].is_for(kind, permission) {
        lemma_rules_from(t, kind, permission, from + 1);
    }
}

/// The rule list at position `i` is the one registered for the pair where
/// none before it is.
pub proof fn lemma_find_rules_at(t: RulesModel, kind: Seq<char>, permission: Seq<char>, i: int)
    requires
        0 <= i < t.len(),
        t[i].is_for(kind, permission),
        forall|j: int| 0 <= j < i ==> !(#[trigger] t[j]).is_for(kind, permission),
    ensures
        find_rules(t, kind, permission) == Some(t[i]),
{
    lemma_rules_from(t, kind, permission, 0);
}

/// No rule list is registered for the pair where none of the table is.
pub proof fn lemma_find_rules_none(t: RulesModel, kind: Seq<char>, permission: Seq<char>)
    requires
        forall|j: int| 0 <= j < t.len() ==> !(#[trigger] t[j]).is_for(kind, permission),
    ensures
        find_rules(t, kind, permission) is None,
{
    lemma_rules_from(t, kind, permission, 0);
}

impl RuleSet {
    /// The rule list that requests may name for `permission` on objects of
    /// type `kind`.
    pub fn exported(kind: &str, permission: &str, predicates: Vec<Predicate>) -> (r: RuleSet)
        ensures
            r@ == exported(kind@, permission@, views(predicates@)),
    {
        RuleSet {
            object_kind: kind.to_string(),
            permission: permission.to_string(),
            exported: true,
            predicates,
        }
    }

    /// The rule list for `permission` on objects of type `kind` that only
    /// other rules delegate to.
    pub fn delegated(kind: &str, permission: &str, predicates: Vec<Predicate>) -> (r: RuleSet)
        ensures
            r@ == delegated(kind@, permission@, views(predicates@)),
    {
        RuleSet {
            object_kind: kind.to_string(),
            permission: permission.to_string(),
            exported: false,
            predicates,
        }
    }
}

impl Guard {
    /// The guard that holds when all the named relation lists are empty.
    pub fn all_empty(names: Vec<String>) -> (g: Guard)
        ensures
            g@.empty_relations == views(names@),
    {
        Guard { empty_relations: names }
    }

    /// An owned copy of this guard.
    pub fn duplicate(&self) -> (g: Guard)
        ensures
            g@ == self@,
    {
        Guard { empty_relations: clone_strings(&self.empty_relations) }
    }
}

impl Predicate {
    /// The subject is a member of the relation list `name`.
    pub fn direct(name: &str) -> (p: Predicate)
        ensures
            p@ == PredicateModel::DirectRelation(name@),
    {
        Predicate::DirectRelation(name.to_string())
    }

    /// The subject holds `permission` on the container.
    pub fn parent(permission: &str) -> (p: Predicate)
        ensures
            p@ == PredicateModel::ParentDelegate(permission@),
    {
        Predicate::ParentDelegate(permission.to_string())
    }

    /// The subject holds on the container `if_true` where the guard holds and
    /// `if_false` where it does not.
    pub fn conditional(guard: Guard, if_true: &str, if_false: &str) -> (p: Predicate)
        ensures
            p@ == PredicateModel::ConditionalDelegate(guard@, if_true@, if_false@),
    {
        Predicate::ConditionalDelegate(guard, if_true.to_string(), if_false.to_string())
    }

    /// Both `a` and `b` hold.
    pub fn both(a: Predicate, b: Predicate) -> (p: Predicate)
        ensures
            p@ == PredicateModel::Conjunction(Box::new(a@), Box::new(b@)),
    {
        Predicate::Conjunction(Box::new(a), Box::new(b))
    }

    /// The subject holds `permission` on every object cited through `name`.
    pub fn every_reference(name: &str, permission: &str) -> (p: Predicate)
        ensures
            p@ == PredicateModel::EveryReference(name@, permission@),
    {
        Predicate::EveryReference(name.to_string(), permission.to_string())
    }
}

/// The rule table of a domain.
#[derive(Debug)]
pub struct RuleTable {
    rules: Vec<RuleSet>,
}

impl View for RuleTable {
    type V = RulesModel;

    closed spec fn view(&self) -> RulesModel {
        views(self.rules@)
    }
}

impl RuleTable {
    /// The table without any rule list: it grants nothing.
    pub fn new() -> (t: RuleTable)
        ensures
            t@ == Seq::<RuleSetModel>::empty(),
    {
        let t = RuleTable { rules: Vec::new() };
        assert(views(t.rules@) =~= Seq::<RuleSetModel>::empty());
        t
    }

    /// The table of the given rule lists, in their order. Where two of them
    /// are registered for one pair, the first one counts.
    pub fn from_list(rules: Vec<RuleSet>) -> (t: RuleTable)
        ensures
            t@ == views(rules@),
    {
        RuleTable { rules }
    }

    /// The number of rule lists.
    pub fn len(&self) -> (n: usize)
        ensures
            n == self@.len(),
    {
        self.rules.len()
    }

    /// The position of the rule list registered for the pair.
    fn position(&self, kind: &String, permission: &String) -> (found: Option<usize>)
        ensures
            match found {
                Some(i) => rules_from(self@, kind@, permission@, 0) == Some(i as int) && i
                    < self@.len(),
                None => rules_from(self@, kind@, permission@, 0) is None,
            },
    {
        let mut i: usize = 0;
        while i < self.rules.len()
            invariant
                i <= self.rules.len(),
                rules_from(self@, kind@, permission@, 0) == rules_from(
                    self@,
                    kind@,
                    permission@,
                    i as int,
                ),
            decreases self.rules.len() - i,
        {
            let set = &self.rules[i];
            assert(self@[i as int] == set@);
            if set.object_kind == *kind && set.permission == *permission {
                return Some(i);
            }
            i += 1;
        }
        None
    }

    /// The rule list registered for `permission` on objects of type `kind`;
    /// `None` where none is registered.
    pub fn find(&self, kind: &String, permission: &String) -> (found: Option<&RuleSet>)
        ensures
            match found {
                Some(set) => find_rules(self@, kind@, permission@) == Some(set@),
                None => find_rules(self@, kind@, permission@) is None,
            },
    {
        match self.position(kind, permission) {
            Some(i) => Some(&self.rules[i]),
            None => None,
        }
    }

    /// Registers a rule list under its pair of object type and permission.
    pub fn register(&mut self, rules: RuleSet)
        ensures
            final(self)@ == register_spec(old(self)@, rules@),
    {
        let ghost before = self@;
        match self.position(&rules.object_kind, &rules.permission) {
            Some(i) => {
                self.rules.set(i, rules);
                assert(views(self.rules@) =~= before.update(i as int, rules@));
            },
            None => {
                self.rules.push(rules);
                assert(views(self.rules@) =~= before.push(rules@));
            },
        }
    }

    /// Registers `predicates` as the rule list that requests may name for
    /// `permission` on objects of type `kind`.
    pub fn grant(&mut self, kind: &str, permission: &str, predicates: Vec<Predicate>)
        ensures
            final(self)@ == register_spec(
                old(self)@,
                exported(kind@, permission@, views(predicates@)),
            ),
    {
        self.register(RuleSet::exported(kind, permission, predicates))
    }

    /// Registers `predicates` as a rule list that only other rules delegate
    /// to.
    pub fn grant_delegated(&mut self, kind: &str, permission: &str, predicates: Vec<Predicate>)
        ensures
            final(self)@ == register_spec(
                old(self)@,
                delegated(kind@, permission@, views(predicates@)),
            ),
    {
        self.register(RuleSet::delegated(kind, permission, predicates))
    }
}

} // verus!
