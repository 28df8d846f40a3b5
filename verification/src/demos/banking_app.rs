//! A banking hierarchy: banks hold branches, branches hold accounts and loans.
//! Account holders act on their accounts, branch staff on the accounts and
//! loans of their branch.

use crate::clock::current_timestamp;
pub use crate::decision::{AuthorizationRequest, AuthorizationResponse};
use crate::decision::{check_request, request_outcome, response_reports};
use crate::graph::{Entity, EntityModel, GraphModel, Link, LinkModel, ObjectGraph, Relation, RelationModel};
use crate::records::{ids_distinct, lemma_upsert_new, store_all, stored_all, upsert, upsert_spec, Identified, Record};
use crate::reference::RefModel;
use crate::rules::{
    delegated, direct, exported, parent, Predicate, PredicateModel, RuleSet, RuleTable, RulesModel,
};
use crate::text::{clone_strings, names1, no_names, views};
pub use crate::tuples::OpenFGATuple;
use crate::tuples::{graph_tuples, materialize};
use vstd::prelude::*;
use vstd::string::*;

verus! {

/// A person known to the bank. The role describes the person; it grants
/// nothing.
#[derive(Debug, Clone)]
pub struct BankingUser {
    pub id: String,
    pub name: String,
    pub role: String,
}

/// The mathematical value of a [`BankingUser`].
pub struct BankingUserModel {
    pub id: Seq<char>,
    pub name: Seq<char>,
    pub role: Seq<char>,
}

impl View for BankingUser {
    type V = BankingUserModel;

    open spec fn view(&self) -> BankingUserModel {
        BankingUserModel { id: self.id@, name: self.name@, role: self.role@ }
    }
}

impl Identified for BankingUser {
    open spec fn id_of(m: BankingUserModel) -> Seq<char> {
        m.id
    }

    fn id(&self) -> (id: &String) {
        &self.id
    }
}

impl Record for BankingUser {
    open spec fn entity_of(m: BankingUserModel) -> EntityModel {
        EntityModel {
            kind: "user"@,
            id: m.id,
            parents: Seq::empty(),
            relations: Seq::empty(),
            references: Seq::empty(),
            content: Seq::empty(),
        }
    }

    fn to_entity(&self) -> (e: Entity) {
        Entity::new("user", self.id.as_str())
    }
}

/// The root of the hierarchy.
#[derive(Debug, Clone)]
pub struct Bank {
    pub id: String,
    pub name: String,
    pub admins: Vec<String>,
    pub managers: Vec<String>,
}

/// The mathematical value of a [`Bank`].
pub struct BankModel {
    pub id: Seq<char>,
    pub name: Seq<char>,
    pub admins: Seq<Seq<char>>,
    pub managers: Seq<Seq<char>>,
}

impl View for Bank {
    type V = BankModel;

    open spec fn view(&self) -> BankModel {
        BankModel {
            id: self.id@,
            name: self.name@,
            admins: views(self.admins@),
            managers: views(self.managers@),
        }
    }
}

impl Identified for Bank {
    open spec fn id_of(m: BankModel) -> Seq<char> {
        m.id
    }

    fn id(&self) -> (id: &String) {
        &self.id
    }
}

impl Record for Bank {
    open spec fn entity_of(m: BankModel) -> EntityModel {
        EntityModel {
            kind: "bank"@,
            id: m.id,
            parents: Seq::empty(),
            relations: seq![
                RelationModel { name: "admin"@, members: m.admins },
                RelationModel { name: "manager"@, members: m.managers },
            ],
            references: Seq::empty(),
            content: Seq::empty(),
        }
    }

    fn to_entity(&self) -> (e: Entity) {
        let mut e = Entity::new("bank", self.id.as_str());
        e.add_relation(Relation::new("admin", clone_strings(&self.admins)));
        e.add_relation(Relation::new("manager", clone_strings(&self.managers)));
        assert(e@.relations =~= Self::entity_of(self@).relations);
        e
    }
}

/// The members of a relation that at most one person holds.
pub open spec fn optional_member(id: Option<Seq<char>>) -> Seq<Seq<char>> {
    match id {
        Some(m) => seq![m],
        None => Seq::empty(),
    }
}

/// The model of an id that may be absent.
pub open spec fn optional_view(id: Option<String>) -> Option<Seq<char>> {
    match id {
        Some(m) => Some(m@),
        None => None,
    }
}

/// A branch of a bank, with its staff.
#[derive(Debug, Clone)]
pub struct Branch {
    pub id: String,
    pub name: String,
    pub parent_bank_id: String,
    pub manager_id: Option<String>,
    pub tellers: Vec<String>,
}

/// The mathematical value of a [`Branch`].
pub struct BranchModel {
    pub id: Seq<char>,
    pub name: Seq<char>,
    pub parent_bank_id: Seq<char>,
    pub manager_id: Option<Seq<char>>,
    pub tellers: Seq<Seq<char>>,
}

impl View for Branch {
    type V = BranchModel;

    open spec fn view(&self) -> BranchModel {
        BranchModel {
            id: self.id@,
            name: self.name@,
            parent_bank_id: self.parent_bank_id@,
            manager_id: optional_view(self.manager_id),
            tellers: views(self.tellers@),
        }
    }
}

impl Identified for Branch {
    open spec fn id_of(m: BranchModel) -> Seq<char> {
        m.id
    }

    fn id(&self) -> (id: &String) {
        &self.id
    }
}

impl Record for Branch {
    open spec fn entity_of(m: BranchModel) -> EntityModel {
        EntityModel {
            kind: "branch"@,
            id: m.id,
            parents: seq![
                LinkModel {
                    relation: "parent_bank"@,
                    target: RefModel { kind: "bank"@, id: m.parent_bank_id },
                },
            ],
            relations: seq![
                RelationModel { name: "manager"@, members: optional_member(m.manager_id) },
                RelationModel { name: "teller"@, members: m.tellers },
            ],
            references: Seq::empty(),
            content: Seq::empty(),
        }
    }

    fn to_entity(&self) -> (e: Entity) {
        let mut e = Entity::new("branch", self.id.as_str());
        e.add_parent(Link::new("parent_bank", "bank", self.parent_bank_id.as_str()));
        let managers = match &self.manager_id {
            Some(m) => names1(m.as_str()),
            None => {
                let none: Vec<String> = Vec::new();
                assert(views(none@) =~= Seq::<Seq<char>>::empty());
                none
            },
        };
        e.add_relation(Relation::new("manager", managers));
        e.add_relation(Relation::new("teller", clone_strings(&self.tellers)));
        assert(e@.parents =~= Self::entity_of(self@).parents);
        assert(e@.relations =~= Self::entity_of(self@).relations);
        e
    }
}

/// What `add_account_with_params` takes: the fields of an account. Money is
/// counted in cents.
#[derive(Debug, Clone)]
pub struct AccountParams {
    pub id: String,
    pub account_number: String,
    pub parent_branch_id: String,
    pub owners: Vec<String>,
    pub co_owners: Vec<String>,
    pub balance: i64,
    pub account_type: String,
}

/// An account of a branch. The balance is counted in cents.
#[derive(Debug, Clone)]
pub struct Account {
    pub id: String,
    pub account_number: String,
    pub parent_branch_id: String,
    pub owners: Vec<String>,
    pub co_owners: Vec<String>,
    pub balance: i64,
    pub account_type: String,
}

/// The mathematical value of an [`Account`] and of [`AccountParams`].
pub struct AccountModel {
    pub id: Seq<char>,
    pub account_number: Seq<char>,
    pub parent_branch_id: Seq<char>,
    pub owners: Seq<Seq<char>>,
    pub co_owners: Seq<Seq<char>>,
    pub balance: int,
    pub account_type: Seq<char>,
}

impl View for AccountParams {
    type V = AccountModel;

    open spec fn view(&self) -> AccountModel {
        AccountModel {
            id: self.id@,
            account_number: self.account_number@,
            parent_branch_id: self.parent_branch_id@,
            owners: views(self.owners@),
            co_owners: views(self.co_owners@),
            balance: self.balance as int,
            account_type: self.account_type@,
        }
    }
}

impl View for Account {
    type V = AccountModel;

    open spec fn view(&self) -> AccountModel {
        AccountModel {
            id: self.id@,
            account_number: self.account_number@,
            parent_branch_id: self.parent_branch_id@,
            owners: views(self.owners@),
            co_owners: views(self.co_owners@),
            balance: self.balance as int,
            account_type: self.account_type@,
        }
    }
}

impl Identified for Account {
    open spec fn id_of(m: AccountModel) -> Seq<char> {
        m.id
    }

    fn id(&self) -> (id: &String) {
        &self.id
    }
}

impl Record for Account {
    open spec fn entity_of(m: AccountModel) -> EntityModel {
        EntityModel {
            kind: "account"@,
            id: m.id,
            parents: seq![
                LinkModel {
                    relation: "parent_branch"@,
                    target: RefModel { kind: "branch"@, id: m.parent_branch_id },
                },
            ],
            relations: seq![
                RelationModel { name: "owner"@, members: m.owners },
                RelationModel { name: "co_owner"@, members: m.co_owners },
            ],
            references: Seq::empty(),
            content: Seq::empty(),
        }
    }

    fn to_entity(&self) -> (e: Entity) {
        let mut e = Entity::new("account", self.id.as_str());
        e.add_parent(Link::new("parent_branch", "branch", self.parent_branch_id.as_str()));
        e.add_relation(Relation::new("owner", clone_strings(&self.owners)));
        e.add_relation(Relation::new("co_owner", clone_strings(&self.co_owners)));
        assert(e@.parents =~= Self::entity_of(self@).parents);
        assert(e@.relations =~= Self::entity_of(self@).relations);
        e
    }
}

/// What `add_loan_with_params` takes: the fields of a loan. The amount is
/// counted in cents, the interest rate in hundredths of a percent.
#[derive(Debug, Clone)]
pub struct LoanParams {
    pub id: String,
    pub parent_branch_id: String,
    pub borrower_id: String,
    pub co_borrowers: Vec<String>,
    pub loan_officer_id: String,
    pub amount: i64,
    pub status: String,
    pub interest_rate: i64,
}

/// A loan of a branch. The amount is counted in cents, the interest rate in
/// hundredths of a percent.
#[derive(Debug, Clone)]
pub struct Loan {
    pub id: String,
    pub parent_branch_id: String,
    pub borrower_id: String,
    pub co_borrowers: Vec<String>,
    pub loan_officer_id: String,
    pub amount: i64,
    pub status: String,
    pub interest_rate: i64,
}

/// The mathematical value of a [`Loan`] and of [`LoanParams`].
pub struct LoanModel {
    pub id: Seq<char>,
    pub parent_branch_id: Seq<char>,
    pub borrower_id: Seq<char>,
    pub co_borrowers: Seq<Seq<char>>,
    pub loan_officer_id: Seq<char>,
    pub amount: int,
    pub status: Seq<char>,
    pub interest_rate: int,
}

impl View for LoanParams {
    type V = LoanModel;

    open spec fn view(&self) -> LoanModel {
        LoanModel {
            id: self.id@,
            parent_branch_id: self.parent_branch_id@,
            borrower_id: self.borrower_id@,
            co_borrowers: views(self.co_borrowers@),
            loan_officer_id: self.loan_officer_id@,
            amount: self.amount as int,
            status: self.status@,
            interest_rate: self.interest_rate as int,
        }
    }
}

impl View for Loan {
    type V = LoanModel;

    open spec fn view(&self) -> LoanModel {
        LoanModel {
            id: self.id@,
            parent_branch_id: self.parent_branch_id@,
            borrower_id: self.borrower_id@,
            co_borrowers: views(self.co_borrowers@),
            loan_officer_id: self.loan_officer_id@,
            amount: self.amount as int,
            status: self.status@,
            interest_rate: self.interest_rate as int,
        }
    }
}

impl Identified for Loan {
    open spec fn id_of(m: LoanModel) -> Seq<char> {
        m.id
    }

    fn id(&self) -> (id: &String) {
        &self.id
    }
}

impl Record for Loan {
    open spec fn entity_of(m: LoanModel) -> EntityModel {
        EntityModel {
            kind: "loan"@,
            id: m.id,
            parents: seq![
                LinkModel {
                    relation: "parent_branch"@,
                    target: RefModel { kind: "branch"@, id: m.parent_branch_id },
                },
            ],
            relations: seq![
                RelationModel { name: "borrower"@, members: seq![m.borrower_id] },
                RelationModel { name: "co_borrower"@, members: m.co_borrowers },
                RelationModel { name: "loan_officer"@, members: seq![m.loan_officer_id] },
            ],
            references: Seq::empty(),
            content: Seq::empty(),
        }
    }

    fn to_entity(&self) -> (e: Entity) {
        let mut e = Entity::new("loan", self.id.as_str());
        e.add_parent(Link::new("parent_branch", "branch", self.parent_branch_id.as_str()));
        e.add_relation(Relation::new("borrower", names1(self.borrower_id.as_str())));
        e.add_relation(Relation::new("co_borrower", clone_strings(&self.co_borrowers)));
        e.add_relation(Relation::new("loan_officer", names1(self.loan_officer_id.as_str())));
        assert(e@.parents =~= Self::entity_of(self@).parents);
        assert(e@.relations =~= Self::entity_of(self@).relations);
        e
    }
}

/// A movement of money between accounts. The amount is counted in cents.
#[derive(Debug, Clone)]
pub struct Transaction {
    pub id: String,
    pub source_account_id: Option<String>,
    pub target_account_id: String,
    pub initiated_by: String,
    pub amount: i64,
    pub transaction_type: String,
    pub timestamp: String,
    pub status: String,
}

/// The mathematical value of a [`Transaction`].
pub struct TransactionModel {
    pub id: Seq<char>,
    pub source_account_id: Option<Seq<char>>,
    pub target_account_id: Seq<char>,
    pub initiated_by: Seq<char>,
    pub amount: int,
    pub transaction_type: Seq<char>,
    pub timestamp: Seq<char>,
    pub status: Seq<char>,
}

impl View for Transaction {
    type V = TransactionModel;

    open spec fn view(&self) -> TransactionModel {
        TransactionModel {
            id: self.id@,
            source_account_id: optional_view(self.source_account_id),
            target_account_id: self.target_account_id@,
            initiated_by: self.initiated_by@,
            amount: self.amount as int,
            transaction_type: self.transaction_type@,
            timestamp: self.timestamp@,
            status: self.status@,
        }
    }
}

impl Identified for Transaction {
    open spec fn id_of(m: TransactionModel) -> Seq<char> {
        m.id
    }

    fn id(&self) -> (id: &String) {
        &self.id
    }
}

/// The banking domain: its records, and the tuples that were derived from them
/// when the demonstration data was loaded.
#[derive(Debug)]
pub struct BankingDemo {
    pub users: Vec<BankingUser>,
    pub banks: Vec<Bank>,
    pub branches: Vec<Branch>,
    pub accounts: Vec<Account>,
    pub loans: Vec<Loan>,
    pub transactions: Vec<Transaction>,
    pub tuples: Vec<OpenFGATuple>,
}

/// Who holds an account: its owners and co-owners.
pub open spec fn holder_rules() -> Seq<PredicateModel> {
    seq![direct("owner"@), direct("co_owner"@)]
}

/// The policy of the banking domain.
///
/// Requests may name `can_view`, `can_deposit`, `can_withdraw` and
/// `can_transfer` on accounts, and `can_view`, `can_approve` and `can_modify`
/// on loans. The lists registered for branches say who is staff, teller or
/// manager of a branch; they serve the delegation from accounts and loans.
pub open spec fn banking_rules() -> RulesModel {
    seq![
        delegated("branch"@, "staff"@, seq![direct("teller"@), direct("manager"@)]),
        delegated("branch"@, "teller"@, seq![direct("teller"@)]),
        delegated("branch"@, "manager"@, seq![direct("manager"@)]),
        exported("account"@, "can_view"@, holder_rules().push(parent("staff"@))),
        exported("account"@, "can_deposit"@, holder_rules().push(parent("teller"@))),
        exported("account"@, "can_withdraw"@, holder_rules().push(parent("manager"@))),
        exported("account"@, "can_transfer"@, holder_rules()),
        exported(
            "loan"@,
            "can_view"@,
            seq![
                direct("borrower"@),
                direct("co_borrower"@),
                direct("loan_officer"@),
                parent("manager"@),
            ],
        ),
        exported("loan"@, "can_approve"@, seq![direct("loan_officer"@), parent("manager"@)]),
        exported("loan"@, "can_modify"@, seq![direct("loan_officer"@)]),
    ]
}

fn holders() -> (predicates: Vec<Predicate>)
    ensures
        views(predicates@) == holder_rules(),
{
    let predicates = vec![Predicate::direct("owner"), Predicate::direct("co_owner")];
    assert(views(predicates@) =~= holder_rules());
    predicates
}

fn holders_or(permission: &str) -> (predicates: Vec<Predicate>)
    ensures
        views(predicates@) == holder_rules().push(parent(permission@)),
{
    let mut predicates = holders();
    let p = Predicate::parent(permission);
    predicates.push(p);
    assert(views(predicates@) =~= holder_rules().push(parent(permission@)));
    predicates
}

impl BankingDemo {
    /// The graph that the records stand for: the entity of each user, bank,
    /// branch, account and loan, stored in this order.
    pub open spec fn graph_model(&self) -> GraphModel {
        let g = stored_all::<BankingUser>(Seq::empty(), views(self.users@));
        let g = stored_all::<Bank>(g, views(self.banks@));
        let g = stored_all::<Branch>(g, views(self.branches@));
        let g = stored_all::<Account>(g, views(self.accounts@));
        stored_all::<Loan>(g, views(self.loans@))
    }

    /// Every list of records holds each id once: what `new`, `empty`, the
    /// `add_*` functions and `record_transaction` build is well formed.
    pub open spec fn wf(&self) -> bool {
        &&& ids_distinct::<BankingUser>(views(self.users@))
        &&& ids_distinct::<Bank>(views(self.banks@))
        &&& ids_distinct::<Branch>(views(self.branches@))
        &&& ids_distinct::<Account>(views(self.accounts@))
        &&& ids_distinct::<Loan>(views(self.loans@))
        &&& ids_distinct::<Transaction>(views(self.transactions@))
    }

    /// The domain without any record.
    pub fn empty() -> (demo: BankingDemo)
        ensures
            demo.users@.len() == 0,
            demo.banks@.len() == 0,
            demo.branches@.len() == 0,
            demo.accounts@.len() == 0,
            demo.loans@.len() == 0,
            demo.transactions@.len() == 0,
            demo.tuples@.len() == 0,
            demo.wf(),
    {
        BankingDemo {
            users: Vec::new(),
            banks: Vec::new(),
            branches: Vec::new(),
            accounts: Vec::new(),
            loans: Vec::new(),
            transactions: Vec::new(),
            tuples: Vec::new(),
        }
    }

    /// The domain with the demonstration data: six users, one bank with one
    /// branch, two accounts and one loan, and the tuples derived from them.
    pub fn new() -> (demo: BankingDemo)
        ensures
            views(demo.users@) == demo_users(),
            views(demo.banks@) == demo_banks(),
            views(demo.branches@) == demo_branches(),
            views(demo.accounts@) == demo_accounts(),
            views(demo.loans@) == demo_loans(),
            demo.transactions@.len() == 0,
            views(demo.tuples@) == graph_tuples(demo.graph_model()),
            demo.wf(),
    {
        let mut demo = BankingDemo::empty();
        demo.setup_demo_data();
        demo
    }

    /// Loads the demonstration data into the empty domain.
    fn setup_demo_data(&mut self)
        requires
            old(self).users@.len() == 0,
            old(self).banks@.len() == 0,
            old(self).branches@.len() == 0,
            old(self).accounts@.len() == 0,
            old(self).loans@.len() == 0,
            old(self).transactions@.len() == 0,
            old(self).tuples@.len() == 0,
        ensures
            views(final(self).users@) == demo_users(),
            views(final(self).banks@) == demo_banks(),
            views(final(self).branches@) == demo_branches(),
            views(final(self).accounts@) == demo_accounts(),
            views(final(self).loans@) == demo_loans(),
            final(self).transactions@.len() == 0,
            views(final(self).tuples@) == graph_tuples(final(self).graph_model()),
            final(self).wf(),
    {
        proof {
            reveal_strlit("alice");
            reveal_strlit("bob");
            reveal_strlit("charlie");
            reveal_strlit("diana");
            reveal_strlit("eve");
            reveal_strlit("frank");
            reveal_strlit("acc1");
            reveal_strlit("acc2");
            assert("alice"@[0] != "diana"@[0]);
            assert("alice"@[0] != "frank"@[0]);
            assert("diana"@[0] != "frank"@[0]);
            assert("bob"@[0] != "eve"@[0]);
            assert("acc1"@[3] != "acc2"@[3]);
        }
        let ghost u0 = views(self.users@);
        assert(u0 =~= Seq::<BankingUserModel>::empty());
        self.add_user("alice", "Alice Johnson", "customer");
        proof {
            lemma_upsert_new::<BankingUser>(u0, demo_users()[0]);
        }
        let ghost u1 = views(self.users@);
        self.add_user("bob", "Bob Smith", "customer");
        proof {
            lemma_upsert_new::<BankingUser>(u1, demo_users()[1]);
        }
        let ghost u2 = views(self.users@);
        self.add_user("charlie", "Charlie Brown", "teller");
        proof {
            lemma_upsert_new::<BankingUser>(u2, demo_users()[2]);
        }
        let ghost u3 = views(self.users@);
        self.add_user("diana", "Diana Prince", "manager");
        proof {
            lemma_upsert_new::<BankingUser>(u3, demo_users()[3]);
        }
        let ghost u4 = views(self.users@);
        self.add_user("eve", "Eve Adams", "loan_officer");
        proof {
            lemma_upsert_new::<BankingUser>(u4, demo_users()[4]);
        }
        let ghost u5 = views(self.users@);
        self.add_user("frank", "Frank Miller", "admin");
        proof {
            lemma_upsert_new::<BankingUser>(u5, demo_users()[5]);
        }
        assert(views(self.users@) =~= demo_users());

        let ghost b0 = views(self.banks@);
        assert(b0 =~= Seq::<BankModel>::empty());
        self.add_bank("bank1", "First National Bank", names1("frank"), names1("diana"));
        proof {
            lemma_upsert_new::<Bank>(b0, demo_banks()[0]);
        }
        assert(views(self.banks@) =~= demo_banks());

        let ghost r0 = views(self.branches@);
        assert(r0 =~= Seq::<BranchModel>::empty());
        self.add_branch(
            "branch1",
            "Downtown Branch",
            "bank1",
            Some("diana".to_string()),
            names1("charlie"),
        );
        proof {
            lemma_upsert_new::<Branch>(r0, demo_branches()[0]);
        }
        assert(views(self.branches@) =~= demo_branches());

        let ghost a0 = views(self.accounts@);
        assert(a0 =~= Seq::<AccountModel>::empty());
        self.add_account("acc1", "1001", "branch1", names1("alice"), no_names(), 500_000, "checking");
        proof {
            lemma_upsert_new::<Account>(a0, demo_accounts()[0]);
        }
        let ghost a1 = views(self.accounts@);
        self.add_account(
            "acc2",
            "1002",
            "branch1",
            names1("bob"),
            names1("alice"),
            300_000,
            "savings",
        );
        proof {
            lemma_upsert_new::<Account>(a1, demo_accounts()[1]);
        }
        assert(views(self.accounts@) =~= demo_accounts());

        let ghost l0 = views(self.loans@);
        assert(l0 =~= Seq::<LoanModel>::empty());
        self.add_loan("loan1", "branch1", "alice", names1("bob"), "eve", 5_000_000, "pending", 350);
        proof {
            lemma_upsert_new::<Loan>(l0, demo_loans()[0]);
        }
        assert(views(self.loans@) =~= demo_loans());

        self.setup_authorization_tuples();
        assert(views(self.tuples@) =~= graph_tuples(self.graph_model()));
    }

    /// The policy of the domain as a rule table.
    pub fn rules() -> (table: RuleTable)
        ensures
            table@ == banking_rules(),
    {
        let staff = vec![Predicate::direct("teller"), Predicate::direct("manager")];
        assert(views(staff@) =~= seq![direct("teller"@), direct("manager"@)]);
        let teller = vec![Predicate::direct("teller")];
        assert(views(teller@) =~= seq![direct("teller"@)]);
        let manager = vec![Predicate::direct("manager")];
        assert(views(manager@) =~= seq![direct("manager"@)]);
        let view_loan = vec![
            Predicate::direct("borrower"),
            Predicate::direct("co_borrower"),
            Predicate::direct("loan_officer"),
            Predicate::parent("manager"),
        ];
        assert(views(view_loan@) =~= seq![
            direct("borrower"@),
            direct("co_borrower"@),
            direct("loan_officer"@),
            parent("manager"@),
        ]);
        let approve = vec![Predicate::direct("loan_officer"), Predicate::parent("manager")];
        assert(views(approve@) =~= seq![direct("loan_officer"@), parent("manager"@)]);
        let modify = vec![Predicate::direct("loan_officer")];
        assert(views(modify@) =~= seq![direct("loan_officer"@)]);
        let list = vec![
            RuleSet::delegated("branch", "staff", staff),
            RuleSet::delegated("branch", "teller", teller),
            RuleSet::delegated("branch", "manager", manager),
            RuleSet::exported("account", "can_view", holders_or("staff")),
            RuleSet::exported("account", "can_deposit", holders_or("teller")),
            RuleSet::exported("account", "can_withdraw", holders_or("manager")),
            RuleSet::exported("account", "can_transfer", holders()),
            RuleSet::exported("loan", "can_view", view_loan),
            RuleSet::exported("loan", "can_approve", approve),
            RuleSet::exported("loan", "can_modify", modify),
        ];
        assert(views(list@) =~= banking_rules());
        RuleTable::from_list(list)
    }

    /// The graph that the records stand for.
    pub fn graph(&self) -> (g: ObjectGraph)
        ensures
            g@ == self.graph_model(),
            g.wf(),
    {
        let mut g = ObjectGraph::new();
        store_all(&mut g, &self.users);
        store_all(&mut g, &self.banks);
        store_all(&mut g, &self.branches);
        store_all(&mut g, &self.accounts);
        store_all(&mut g, &self.loans);
        g
    }

    /// Answers a request by the policy of the domain, on the records as they
    /// stand at the time of the call.
    pub fn check_authorization(&self, request: &AuthorizationRequest) -> (r: AuthorizationResponse)
        ensures
            response_reports(r, request_outcome(self.graph_model(), banking_rules(), request@)),
    {
        let graph = self.graph();
        let rules = Self::rules();
        check_request(&graph, &rules, request)
    }

    /// Stores a user under `id`.
    pub fn add_user(&mut self, id: &str, name: &str, role: &str)
        ensures
            views(final(self).users@) == upsert_spec::<BankingUser>(
                views(old(self).users@),
                BankingUserModel { id: id@, name: name@, role: role@ },
            ),
            *final(self) == (BankingDemo { users: final(self).users, ..*old(self) }),
            old(self).wf() ==> final(self).wf(),
    {
        upsert(
            &mut self.users,
            BankingUser { id: id.to_string(), name: name.to_string(), role: role.to_string() },
        );
    }

    /// Stores a bank under `id`.
    pub fn add_bank(&mut self, id: &str, name: &str, admins: Vec<String>, managers: Vec<String>)
        ensures
            views(final(self).banks@) == upsert_spec::<Bank>(
                views(old(self).banks@),
                BankModel {
                    id: id@,
                    name: name@,
                    admins: views(admins@),
                    managers: views(managers@),
                },
            ),
            *final(self) == (BankingDemo { banks: final(self).banks, ..*old(self) }),
            old(self).wf() ==> final(self).wf(),
    {
        upsert(&mut self.banks, Bank { id: id.to_string(), name: name.to_string(), admins, managers });
    }

    /// Stores a branch under `id`.
    pub fn add_branch(
        &mut self,
        id: &str,
        name: &str,
        parent_bank_id: &str,
        manager_id: Option<String>,
        tellers: Vec<String>,
    )
        ensures
            views(final(self).branches@) == upsert_spec::<Branch>(
                views(old(self).branches@),
                BranchModel {
                    id: id@,
                    name: name@,
                    parent_bank_id: parent_bank_id@,
                    manager_id: optional_view(manager_id),
                    tellers: views(tellers@),
                },
            ),
            *final(self) == (BankingDemo { branches: final(self).branches, ..*old(self) }),
            old(self).wf() ==> final(self).wf(),
    {
        upsert(
            &mut self.branches,
            Branch {
                id: id.to_string(),
                name: name.to_string(),
                parent_bank_id: parent_bank_id.to_string(),
                manager_id,
                tellers,
            },
        );
    }

    /// Stores the account that `params` describes under its id.
    pub fn add_account_with_params(&mut self, params: AccountParams)
        ensures
            views(final(self).accounts@) == upsert_spec::<Account>(
                views(old(self).accounts@),
                params@,
            ),
            *final(self) == (BankingDemo { accounts: final(self).accounts, ..*old(self) }),
            old(self).wf() ==> final(self).wf(),
    {
        upsert(
            &mut self.accounts,
            Account {
                id: params.id,
                account_number: params.account_number,
                parent_branch_id: params.parent_branch_id,
                owners: params.owners,
                co_owners: params.co_owners,
                balance: params.balance,
                account_type: params.account_type,
            },
        );
    }

    /// Stores an account under `id`. The balance is counted in cents.
    pub fn add_account(
        &mut self,
        id: &str,
        account_number: &str,
        parent_branch_id: &str,
        owners: Vec<String>,
        co_owners: Vec<String>,
        balance: i64,
        account_type: &str,
    )
        ensures
            views(final(self).accounts@) == upsert_spec::<Account>(
                views(old(self).accounts@),
                AccountModel {
                    id: id@,
                    account_number: account_number@,
                    parent_branch_id: parent_branch_id@,
                    owners: views(owners@),
                    co_owners: views(co_owners@),
                    balance: balance as int,
                    account_type: account_type@,
                },
            ),
            *final(self) == (BankingDemo { accounts: final(self).accounts, ..*old(self) }),
            old(self).wf() ==> final(self).wf(),
    {
        let params = AccountParams {
            id: id.to_string(),
            account_number: account_number.to_string(),
            parent_branch_id: parent_branch_id.to_string(),
            owners,
            co_owners,
            balance,
            account_type: account_type.to_string(),
        };
        self.add_account_with_params(params);
    }

    /// Stores the loan that `params` describes under its id.
    pub fn add_loan_with_params(&mut self, params: LoanParams)
        ensures
            views(final(self).loans@) == upsert_spec::<Loan>(views(old(self).loans@), params@),
            *final(self) == (BankingDemo { loans: final(self).loans, ..*old(self) }),
            old(self).wf() ==> final(self).wf(),
    {
        upsert(
            &mut self.loans,
            Loan {
                id: params.id,
                parent_branch_id: params.parent_branch_id,
                borrower_id: params.borrower_id,
                co_borrowers: params.co_borrowers,
                loan_officer_id: params.loan_officer_id,
                amount: params.amount,
                status: params.status,
                interest_rate: params.interest_rate,
            },
        );
    }

    /// Stores a loan under `id`. The amount is counted in cents, the interest
    /// rate in hundredths of a percent.
    pub fn add_loan(
        &mut self,
        id: &str,
        parent_branch_id: &str,
        borrower_id: &str,
        co_borrowers: Vec<String>,
        loan_officer_id: &str,
        amount: i64,
        status: &str,
        interest_rate: i64,
    )
        ensures
            views(final(self).loans@) == upsert_spec::<Loan>(
                views(old(self).loans@),
                LoanModel {
                    id: id@,
                    parent_branch_id: parent_branch_id@,
                    borrower_id: borrower_id@,
                    co_borrowers: views(co_borrowers@),
                    loan_officer_id: loan_officer_id@,
                    amount: amount as int,
                    status: status@,
                    interest_rate: interest_rate as int,
                },
            ),
            *final(self) == (BankingDemo { loans: final(self).loans, ..*old(self) }),
            old(self).wf() ==> final(self).wf(),
    {
        let params = LoanParams {
            id: id.to_string(),
            parent_branch_id: parent_branch_id.to_string(),
            borrower_id: borrower_id.to_string(),
            co_borrowers,
            loan_officer_id: loan_officer_id.to_string(),
            amount,
            status: status.to_string(),
            interest_rate,
        };
        self.add_loan_with_params(params);
    }

    /// Stores a completed transaction under `id`, stamped with `timestamp`.
    pub fn record_transaction(
        &mut self,
        id: &str,
        source_account_id: Option<String>,
        target_account_id: &str,
        initiated_by: &str,
        amount: i64,
        transaction_type: &str,
        timestamp: String,
    )
        ensures
            views(final(self).transactions@) == upsert_spec::<Transaction>(
                views(old(self).transactions@),
                TransactionModel {
                    id: id@,
                    source_account_id: optional_view(source_account_id),
                    target_account_id: target_account_id@,
                    initiated_by: initiated_by@,
                    amount: amount as int,
                    transaction_type: transaction_type@,
                    timestamp: timestamp@,
                    status: "completed"@,
                },
            ),
            *final(self) == (BankingDemo { transactions: final(self).transactions, ..*old(self) }),
            old(self).wf() ==> final(self).wf(),
    {
        upsert(
            &mut self.transactions,
            Transaction {
                id: id.to_string(),
                source_account_id,
                target_account_id: target_account_id.to_string(),
                initiated_by: initiated_by.to_string(),
                amount,
                transaction_type: transaction_type.to_string(),
                timestamp,
                status: "completed".to_string(),
            },
        );
    }

    /// Stores a completed transaction under `id`, stamped with the time of
    /// the call.
    pub fn add_transaction(
        &mut self,
        id: &str,
        source_account_id: Option<String>,
        target_account_id: &str,
        initiated_by: &str,
        amount: i64,
        transaction_type: &str,
    )
        ensures
            exists|timestamp: Seq<char>|
                views(final(self).transactions@) == upsert_spec::<Transaction>(
                    views(old(self).transactions@),
                    #[trigger] transaction_model(
                        id@,
                        optional_view(source_account_id),
                        target_account_id@,
                        initiated_by@,
                        amount as int,
                        transaction_type@,
                        timestamp,
                    ),
                ),
            *final(self) == (BankingDemo { transactions: final(self).transactions, ..*old(self) }),
            old(self).wf() ==> final(self).wf(),
    {
        let timestamp = current_timestamp();
        self.record_transaction(
            id,
            source_account_id,
            target_account_id,
            initiated_by,
            amount,
            transaction_type,
            timestamp,
        );
        assert(views(self.transactions@) == upsert_spec::<Transaction>(
            views(old(self).transactions@),
            transaction_model(
                id@,
                optional_view(source_account_id),
                target_account_id@,
                initiated_by@,
                amount as int,
                transaction_type@,
                timestamp@,
            ),
        ));
    }

    /// Derives the tuples of the records as they stand and adds them to
    /// `tuples`.
    pub fn setup_authorization_tuples(&mut self)
        ensures
            views(final(self).tuples@) == views(old(self).tuples@) + graph_tuples(
                old(self).graph_model(),
            ),
            *final(self) == (BankingDemo { tuples: final(self).tuples, ..*old(self) }),
            old(self).wf() ==> final(self).wf(),
    {
        let graph = self.graph();
        let mut derived = materialize(&graph);
        let ghost before = views(self.tuples@);
        let ghost added = views(derived@);
        self.tuples.append(&mut derived);
        assert(views(self.tuples@) =~= before + added);
    }

    /// The tuples that were derived when `setup_authorization_tuples` last
    /// ran.
    pub fn get_tuples(&self) -> (tuples: &Vec<OpenFGATuple>)
        ensures
            tuples == &self.tuples,
    {
        &self.tuples
    }
}

impl Default for BankingDemo {
    /// The domain with the demonstration data.
    fn default() -> (demo: BankingDemo)
        ensures
            views(demo.users@) == demo_users(),
            views(demo.banks@) == demo_banks(),
            views(demo.branches@) == demo_branches(),
            views(demo.accounts@) == demo_accounts(),
            views(demo.loans@) == demo_loans(),
            demo.transactions@.len() == 0,
            views(demo.tuples@) == graph_tuples(demo.graph_model()),
            demo.wf(),
    {
        BankingDemo::new()
    }
}

/// The users of the demonstration data.
pub open spec fn demo_users() -> Seq<BankingUserModel> {
    seq![
        BankingUserModel { id: "alice"@, name: "Alice Johnson"@, role: "customer"@ },
        BankingUserModel { id: "bob"@, name: "Bob Smith"@, role: "customer"@ },
        BankingUserModel { id: "charlie"@, name: "Charlie Brown"@, role: "teller"@ },
        BankingUserModel { id: "diana"@, name: "Diana Prince"@, role: "manager"@ },
        BankingUserModel { id: "eve"@, name: "Eve Adams"@, role: "loan_officer"@ },
        BankingUserModel { id: "frank"@, name: "Frank Miller"@, role: "admin"@ },
    ]
}

/// The bank of the demonstration data.
pub open spec fn demo_banks() -> Seq<BankModel> {
    seq![
        BankModel {
            id: "bank1"@,
            name: "First National Bank"@,
            admins: seq!["frank"@],
            managers: seq!["diana"@],
        },
    ]
}

/// The branch of the demonstration data.
pub open spec fn demo_branches() -> Seq<BranchModel> {
    seq![
        BranchModel {
            id: "branch1"@,
            name: "Downtown Branch"@,
            parent_bank_id: "bank1"@,
            manager_id: Some("diana"@),
            tellers: seq!["charlie"@],
        },
    ]
}

/// The accounts of the demonstration data.
pub open spec fn demo_accounts() -> Seq<AccountModel> {
    seq![
        AccountModel {
            id: "acc1"@,
            account_number: "1001"@,
            parent_branch_id: "branch1"@,
            owners: seq!["alice"@],
            co_owners: Seq::empty(),
            balance: 500_000,
            account_type: "checking"@,
        },
        AccountModel {
            id: "acc2"@,
            account_number: "1002"@,
            parent_branch_id: "branch1"@,
            owners: seq!["bob"@],
            co_owners: seq!["alice"@],
            balance: 300_000,
            account_type: "savings"@,
        },
    ]
}

/// The loan of the demonstration data.
pub open spec fn demo_loans() -> Seq<LoanModel> {
    seq![
        LoanModel {
            id: "loan1"@,
            parent_branch_id: "branch1"@,
            borrower_id: "alice"@,
            co_borrowers: seq!["bob"@],
            loan_officer_id: "eve"@,
            amount: 5_000_000,
            status: "pending"@,
            interest_rate: 350,
        },
    ]
}

/// The model of a completed transaction.
pub open spec fn transaction_model(
    id: Seq<char>,
    source_account_id: Option<Seq<char>>,
    target_account_id: Seq<char>,
    initiated_by: Seq<char>,
    amount: int,
    transaction_type: Seq<char>,
    timestamp: Seq<char>,
) -> TransactionModel {
    TransactionModel {
        id: id,
        source_account_id: source_account_id,
        target_account_id: target_account_id,
        initiated_by: initiated_by,
        amount: amount,
        transaction_type: transaction_type,
        timestamp: timestamp,
        status: "completed"@,
    }
}

} // verus!
