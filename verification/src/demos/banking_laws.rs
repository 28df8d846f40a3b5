//! What holds of the banking policy in every graph: who is allowed what, said
//! in terms of the relation lists themselves.

use crate::decision::allowed_spec;
use crate::demos::banking_app::{
    banking_rules, Account, AccountModel, Bank, BankingDemo, BankingUser, Branch, Loan,
};
use crate::records::{lemma_stored_extends, records_extend, stored_all, Record};
use crate::text::views;
use crate::evaluator::{check_spec, full_budget, holds_spec};
use crate::graph::{lookup, EntityModel, GraphModel};
use crate::laws::law_rule_list_is_disjunction;
use crate::monotonicity::{
    entity_extends, graph_extends, guards_tighten, is_unconditional, law_larger_graph_allows_more,
    lemma_longer_lists_extend, lemma_unconditional_tightens, table_tightens,
};
use crate::reference::RefModel;
use crate::rules::{find_rules, lemma_find_rules_at, lemma_find_rules_none};
use vstd::prelude::*;

verus! {

/// The reference of the account `id`.
pub open spec fn account_ref(id: Seq<char>) -> RefModel {
    RefModel { kind: "account"@, id: id }
}

/// The reference of the loan `id`.
pub open spec fn loan_ref(id: Seq<char>) -> RefModel {
    RefModel { kind: "loan"@, id: id }
}

/// The branch that holds `e`, where `e` names one and the graph holds it.
pub open spec fn branch_of(g: GraphModel, e: EntityModel) -> Option<EntityModel> {
    match e.container() {
        Some(c) => if c.kind == "branch"@ {
            lookup(g, c)
        } else {
            None
        },
        None => None,
    }
}

/// Whether `subject` owns or co-owns `account`.
pub open spec fn is_holder(account: EntityModel, subject: Seq<char>) -> bool {
    account.has_member("owner"@, subject) || account.has_member("co_owner"@, subject)
}

/// Whether `subject` is a teller of the branch that holds `e`.
pub open spec fn is_branch_teller(g: GraphModel, e: EntityModel, subject: Seq<char>) -> bool {
    branch_of(g, e) matches Some(b) && b.has_member("teller"@, subject)
}

/// Whether `subject` is the manager of the branch that holds `e`.
pub open spec fn is_branch_manager(g: GraphModel, e: EntityModel, subject: Seq<char>) -> bool {
    branch_of(g, e) matches Some(b) && b.has_member("manager"@, subject)
}

/// The names of the policy differ from one another.
proof fn lemma_names()
    ensures
        "branch"@.len() == 6,
        "account"@.len() == 7,
        "loan"@.len() == 4,
        "staff"@.len() == 5,
        "teller"@.len() == 6,
        "manager"@.len() == 7,
        "can_view"@.len() == 8,
        "can_deposit"@.len() == 11,
        "can_withdraw"@.len() == 12,
        "can_transfer"@.len() == 12,
        "can_approve"@.len() == 11,
        "can_modify"@.len() == 10,
        "can_withdraw"@ != "can_transfer"@,
{
    reveal_strlit("branch");
    reveal_strlit("account");
    reveal_strlit("loan");
    reveal_strlit("staff");
    reveal_strlit("teller");
    reveal_strlit("manager");
    reveal_strlit("can_view");
    reveal_strlit("can_deposit");
    reveal_strlit("can_withdraw");
    reveal_strlit("can_transfer");
    reveal_strlit("can_approve");
    reveal_strlit("can_modify");
    assert("can_withdraw"@[4] != "can_transfer"@[4]);
}

/// Every rule list of the policy is the one that is found for its pair.
pub proof fn lemma_banking_table(i: int)
    requires
        0 <= i < banking_rules().len(),
    ensures
        find_rules(banking_rules(), banking_rules()[i].object_kind, banking_rules()[i].permission)
            == Some(banking_rules()[i]),
{
    let t = banking_rules();
    lemma_names();
    assert forall|j: int| 0 <= j < i implies !(#[trigger] t[j]).is_for(
        t[i].object_kind,
        t[i].permission,
    ) by {}
    lemma_find_rules_at(t, t[i].object_kind, t[i].permission, i);
}

/// The lists that say who is staff, teller or manager are registered for
/// branches only.
pub proof fn lemma_branch_rules(kind: Seq<char>)
    ensures
        find_rules(banking_rules(), kind, "staff"@) == if kind == "branch"@ {
            Some(banking_rules()[0])
        } else {
            None
        },
        find_rules(banking_rules(), kind, "teller"@) == if kind == "branch"@ {
            Some(banking_rules()[1])
        } else {
            None
        },
        find_rules(banking_rules(), kind, "manager"@) == if kind == "branch"@ {
            Some(banking_rules()[2])
        } else {
            None
        },
{
    let t = banking_rules();
    lemma_names();
    assert forall|j: int| 0 <= j < t.len() && j != 0 implies (#[trigger] t[j]).permission
        != "staff"@ by {}
    assert forall|j: int| 0 <= j < t.len() && j != 1 implies (#[trigger] t[j]).permission
        != "teller"@ by {}
    assert forall|j: int| 0 <= j < t.len() && j != 2 implies (#[trigger] t[j]).permission
        != "manager"@ by {}
    if kind == "branch"@ {
        lemma_find_rules_at(t, kind, "staff"@, 0);
        lemma_find_rules_at(t, kind, "teller"@, 1);
        lemma_find_rules_at(t, kind, "manager"@, 2);
    } else {
        lemma_find_rules_none(t, kind, "staff"@);
        lemma_find_rules_none(t, kind, "teller"@);
        lemma_find_rules_none(t, kind, "manager"@);
    }
}

/// What the delegation to the container of `e` comes to: the tellers and the
/// manager of the branch that holds `e`.
pub proof fn lemma_branch_delegation(g: GraphModel, e: EntityModel, subject: Seq<char>, budget: nat)
    requires
        budget >= 1,
        e.container() is Some,
    ensures
        check_spec(g, banking_rules(), subject, "staff"@, e.container()->0, budget) is Allowed
            <==> is_branch_teller(g, e, subject) || is_branch_manager(g, e, subject),
        check_spec(g, banking_rules(), subject, "teller"@, e.container()->0, budget) is Allowed
            <==> is_branch_teller(g, e, subject),
        check_spec(g, banking_rules(), subject, "manager"@, e.container()->0, budget) is Allowed
            <==> is_branch_manager(g, e, subject),
{
    let t = banking_rules();
    let c = e.container()->0;
    let below = (budget - 1) as nat;
    lemma_branch_rules(c.kind);
    if c.kind == "branch"@ && lookup(g, c) is Some {
        let b = lookup(g, c)->0;
        law_rule_list_is_disjunction(g, t, subject, b, t[0].predicates, 0, below);
        law_rule_list_is_disjunction(g, t, subject, b, t[1].predicates, 0, below);
        law_rule_list_is_disjunction(g, t, subject, b, t[2].predicates, 0, below);
        assert(holds_spec(g, t, subject, b, t[0].predicates[0], below) is Allowed
            <==> b.has_member("teller"@, subject));
        assert(holds_spec(g, t, subject, b, t[0].predicates[1], below) is Allowed
            <==> b.has_member("manager"@, subject));
        assert(holds_spec(g, t, subject, b, t[1].predicates[0], below) is Allowed
            <==> b.has_member("teller"@, subject));
        assert(holds_spec(g, t, subject, b, t[2].predicates[0], below) is Allowed
            <==> b.has_member("manager"@, subject));
    }
}

/// Who is allowed what on an account: the holders everything; the tellers of
/// the branch to view and to deposit; the manager of the branch to view and to
/// withdraw; nobody anything else.
pub proof fn law_account_permissions(g: GraphModel, subject: RefModel, id: Seq<char>)
    requires
        lookup(g, account_ref(id)) is Some,
    ensures
        ({
            let a = lookup(g, account_ref(id))->0;
            let s = subject.id;
            let t = banking_rules();
            &&& allowed_spec(g, t, subject, "can_view"@, account_ref(id)) <==> is_holder(a, s)
                || is_branch_teller(g, a, s) || is_branch_manager(g, a, s)
            &&& allowed_spec(g, t, subject, "can_deposit"@, account_ref(id)) <==> is_holder(a, s)
                || is_branch_teller(g, a, s)
            &&& allowed_spec(g, t, subject, "can_withdraw"@, account_ref(id)) <==> is_holder(a, s)
                || is_branch_manager(g, a, s)
            &&& allowed_spec(g, t, subject, "can_transfer"@, account_ref(id)) <==> is_holder(a, s)
        }),
{
    let t = banking_rules();
    let s = subject.id;
    let a = lookup(g, account_ref(id))->0;
    let inner = (full_budget() - 1) as nat;
    lemma_banking_table(3);
    lemma_banking_table(4);
    lemma_banking_table(5);
    lemma_banking_table(6);
    law_rule_list_is_disjunction(g, t, s, a, t[3].predicates, 0, inner);
    law_rule_list_is_disjunction(g, t, s, a, t[4].predicates, 0, inner);
    law_rule_list_is_disjunction(g, t, s, a, t[5].predicates, 0, inner);
    law_rule_list_is_disjunction(g, t, s, a, t[6].predicates, 0, inner);
    if a.container() is Some {
        lemma_branch_delegation(g, a, s, inner);
    }
    assert forall|i: int| 3 <= i <= 6 implies (holds_spec(
        g,
        t,
        s,
        a,
        #[trigger] t[i].predicates[0],
        inner,
    ) is Allowed <==> a.has_member("owner"@, s)) && (holds_spec(
        g,
        t,
        s,
        a,
        t[i].predicates[1],
        inner,
    ) is Allowed <==> a.has_member("co_owner"@, s)) by {}
    assert(holds_spec(g, t, s, a, t[3].predicates[2], inner) is Allowed <==> is_branch_teller(
        g,
        a,
        s,
    ) || is_branch_manager(g, a, s));
    assert(holds_spec(g, t, s, a, t[4].predicates[2], inner) is Allowed <==> is_branch_teller(
        g,
        a,
        s,
    ));
    assert(holds_spec(g, t, s, a, t[5].predicates[2], inner) is Allowed <==> is_branch_manager(
        g,
        a,
        s,
    ));
}

/// Who is allowed what on a loan: the borrower and the co-borrowers to view
/// it; the loan officer to view, approve and modify it; the manager of the
/// branch to view and approve it; nobody anything else.
pub proof fn law_loan_permissions(g: GraphModel, subject: RefModel, id: Seq<char>)
    requires
        lookup(g, loan_ref(id)) is Some,
    ensures
        ({
            let l = lookup(g, loan_ref(id))->0;
            let s = subject.id;
            let t = banking_rules();
            &&& allowed_spec(g, t, subject, "can_view"@, loan_ref(id)) <==> l.has_member(
                "borrower"@,
                s,
            ) || l.has_member("co_borrower"@, s) || l.has_member("loan_officer"@, s)
                || is_branch_manager(g, l, s)
            &&& allowed_spec(g, t, subject, "can_approve"@, loan_ref(id)) <==> l.has_member(
                "loan_officer"@,
                s,
            ) || is_branch_manager(g, l, s)
            &&& allowed_spec(g, t, subject, "can_modify"@, loan_ref(id)) <==> l.has_member(
                "loan_officer"@,
                s,
            )
        }),
{
    let t = banking_rules();
    let s = subject.id;
    let l = lookup(g, loan_ref(id))->0;
    let inner = (full_budget() - 1) as nat;
    lemma_banking_table(7);
    lemma_banking_table(8);
    lemma_banking_table(9);
    law_rule_list_is_disjunction(g, t, s, l, t[7].predicates, 0, inner);
    law_rule_list_is_disjunction(g, t, s, l, t[8].predicates, 0, inner);
    law_rule_list_is_disjunction(g, t, s, l, t[9].predicates, 0, inner);
    if l.container() is Some {
        lemma_branch_delegation(g, l, s, inner);
    }
    assert(holds_spec(g, t, s, l, t[7].predicates[0], inner) is Allowed <==> l.has_member(
        "borrower"@,
        s,
    ));
    assert(holds_spec(g, t, s, l, t[7].predicates[1], inner) is Allowed <==> l.has_member(
        "co_borrower"@,
        s,
    ));
    assert(holds_spec(g, t, s, l, t[7].predicates[2], inner) is Allowed <==> l.has_member(
        "loan_officer"@,
        s,
    ));
    assert(holds_spec(g, t, s, l, t[7].predicates[3], inner) is Allowed <==> is_branch_manager(
        g,
        l,
        s,
    ));
    assert(holds_spec(g, t, s, l, t[8].predicates[0], inner) is Allowed <==> l.has_member(
        "loan_officer"@,
        s,
    ));
    assert(holds_spec(g, t, s, l, t[8].predicates[1], inner) is Allowed <==> is_branch_manager(
        g,
        l,
        s,
    ));
    assert(holds_spec(g, t, s, l, t[9].predicates[0], inner) is Allowed <==> l.has_member(
        "loan_officer"@,
        s,
    ));
}

/// Requests can name nothing on banks and branches, and nothing but the
/// permissions of accounts and loans: every other pair is an unknown
/// permission.
pub proof fn law_banking_permissions_are_closed(
    g: GraphModel,
    subject: RefModel,
    permission: Seq<char>,
    object: RefModel,
)
    requires
        allowed_spec(g, banking_rules(), subject, permission, object),
    ensures
        object.kind == "account"@ && (permission == "can_view"@ || permission == "can_deposit"@
            || permission == "can_withdraw"@ || permission == "can_transfer"@) || object.kind
            == "loan"@ && (permission == "can_view"@ || permission == "can_approve"@ || permission
            == "can_modify"@),
{
    let t = banking_rules();
    crate::rules::lemma_rules_from(t, object.kind, permission, 0);
    let i = crate::rules::rules_from(t, object.kind, permission, 0)->0;
    assert(t[i].exported);
    assert(t[i].is_for(object.kind, permission));
}

/// The banking policy holds no conditional delegation, so it tightens in
/// every graph.
pub proof fn lemma_banking_rules_tighten(g: GraphModel, h: GraphModel)
    ensures
        table_tightens(g, h, banking_rules()),
{
    let t = banking_rules();
    assert forall|i: int, j: int| 0 <= i < t.len() && 0 <= j < t[i].predicates.len() implies guards_tighten(
        g,
        h,
        t,
        #[trigger] t[i].predicates[j],
    ) by {
        assert(is_unconditional(t[i].predicates[j]));
        lemma_unconditional_tightens(g, h, t, t[i].predicates[j]);
    }
}

/// Monotonicity of grants in the banking domain: whatever is allowed stays
/// allowed when members are added to relation lists.
pub proof fn law_banking_grants_are_monotone(
    g: GraphModel,
    h: GraphModel,
    subject: RefModel,
    permission: Seq<char>,
    object: RefModel,
)
    requires
        graph_extends(g, h),
        allowed_spec(g, banking_rules(), subject, permission, object),
    ensures
        allowed_spec(h, banking_rules(), subject, permission, object),
{
    lemma_banking_rules_tighten(g, h);
    law_larger_graph_allows_more(g, h, banking_rules(), subject, permission, object);
}

/// The records of `b` are those of `a` with members added to their lists.
pub open spec fn domain_extends(a: BankingDemo, b: BankingDemo) -> bool {
    &&& records_extend::<BankingUser>(views(a.users@), views(b.users@))
    &&& records_extend::<Bank>(views(a.banks@), views(b.banks@))
    &&& records_extend::<Branch>(views(a.branches@), views(b.branches@))
    &&& records_extend::<Account>(views(a.accounts@), views(b.accounts@))
    &&& records_extend::<Loan>(views(a.loans@), views(b.loans@))
}

/// Records with members added stand for a graph with members added.
pub proof fn lemma_domain_graph_extends(a: BankingDemo, b: BankingDemo)
    requires
        domain_extends(a, b),
    ensures
        graph_extends(a.graph_model(), b.graph_model()),
{
    let e = Seq::<EntityModel>::empty();
    let (u, u2) = (views(a.users@), views(b.users@));
    lemma_stored_extends::<BankingUser>(e, e, u, u2, u.len() as int);
    let (g1, h1) = (stored_all::<BankingUser>(e, u), stored_all::<BankingUser>(e, u2));
    let (k, k2) = (views(a.banks@), views(b.banks@));
    lemma_stored_extends::<Bank>(g1, h1, k, k2, k.len() as int);
    let (g2, h2) = (stored_all::<Bank>(g1, k), stored_all::<Bank>(h1, k2));
    let (r, r2) = (views(a.branches@), views(b.branches@));
    lemma_stored_extends::<Branch>(g2, h2, r, r2, r.len() as int);
    let (g3, h3) = (stored_all::<Branch>(g2, r), stored_all::<Branch>(h2, r2));
    let (c, c2) = (views(a.accounts@), views(b.accounts@));
    lemma_stored_extends::<Account>(g3, h3, c, c2, c.len() as int);
    let (g4, h4) = (stored_all::<Account>(g3, c), stored_all::<Account>(h3, c2));
    let (l, l2) = (views(a.loans@), views(b.loans@));
    lemma_stored_extends::<Loan>(g4, h4, l, l2, l.len() as int);
}

/// Monotonicity of grants on the records of the banking domain: whatever the
/// records allow, they still allow after members were added to their lists.
pub proof fn law_banking_record_grants_are_monotone(
    a: BankingDemo,
    b: BankingDemo,
    subject: RefModel,
    permission: Seq<char>,
    object: RefModel,
)
    requires
        domain_extends(a, b),
        allowed_spec(a.graph_model(), banking_rules(), subject, permission, object),
    ensures
        allowed_spec(b.graph_model(), banking_rules(), subject, permission, object),
{
    lemma_domain_graph_extends(a, b);
    law_banking_grants_are_monotone(
        a.graph_model(),
        b.graph_model(),
        subject,
        permission,
        object,
    );
}

/// An account with one more co-owner is the account with a member added.
pub proof fn lemma_new_co_owner_extends(account: AccountModel, user: Seq<char>)
    ensures
        entity_extends(
            Account::entity_of(account),
            Account::entity_of(
                AccountModel { co_owners: account.co_owners.push(user), ..account },
            ),
        ),
{
    let a = Account::entity_of(account);
    let b = Account::entity_of(AccountModel { co_owners: account.co_owners.push(user), ..account });
    assert forall|i: int, u: Seq<char>|
        0 <= i < a.relations.len() && (#[trigger] a.relations[i]).members.contains(
            u,
        ) implies #[trigger] b.relations[i].members.contains(u) by {
        if i == 1 {
            let k = choose|k: int| 0 <= k < account.co_owners.len() && account.co_owners[k] == u;
            assert(account.co_owners.push(user)[k] == u);
        }
    }
    lemma_longer_lists_extend(a, b);
}

} // verus!
