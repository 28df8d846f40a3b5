use openfga_operator::demos::banking_app::{AccountParams, BankingDemo, LoanParams};
use openfga_operator::demos::genai_rag::{AuthorizationRequest, GenAIRAGDemo};

fn asks(user: &str, relation: &str, object: &str) -> AuthorizationRequest {
    AuthorizationRequest {
        user: user.to_string(),
        relation: relation.to_string(),
        object: object.to_string(),
    }
}

fn names(list: &[&str]) -> Vec<String> {
    list.iter().map(|s| s.to_string()).collect()
}

#[test]
fn banking_denies_what_no_rule_grants() {
    let demo = BankingDemo::new();
    // Tellers deposit, they do not withdraw or transfer.
    assert!(!demo.check_authorization(&asks("user:charlie", "can_withdraw", "account:acc1")).allowed);
    assert!(!demo.check_authorization(&asks("user:charlie", "can_transfer", "account:acc1")).allowed);
    // Managers withdraw, they do not deposit or transfer.
    assert!(!demo.check_authorization(&asks("user:diana", "can_deposit", "account:acc1")).allowed);
    assert!(!demo.check_authorization(&asks("user:diana", "can_transfer", "account:acc1")).allowed);
    // The branch manager sees and approves loans, and does not modify them.
    assert!(demo.check_authorization(&asks("user:diana", "can_view", "loan:loan1")).allowed);
    assert!(demo.check_authorization(&asks("user:diana", "can_approve", "loan:loan1")).allowed);
    assert!(!demo.check_authorization(&asks("user:diana", "can_modify", "loan:loan1")).allowed);
    assert!(demo.check_authorization(&asks("user:bob", "can_view", "loan:loan1")).allowed);
    assert!(!demo.check_authorization(&asks("user:charlie", "can_view", "loan:loan1")).allowed);
}

#[test]
fn banking_unknown_pairs_are_denied() {
    let demo = BankingDemo::new();
    for (relation, object) in [
        ("can_approve", "account:acc1"),
        ("can_deposit", "loan:loan1"),
        ("can_view", "branch:branch1"),
        ("teller", "branch:branch1"),
        ("manager", "branch:branch1"),
        ("staff", "branch:branch1"),
        ("can_view", "bank:bank1"),
        ("owner", "account:acc1"),
        ("", "account:acc1"),
    ] {
        let response = demo.check_authorization(&asks("user:diana", relation, object));
        assert!(!response.allowed, "{} on {}", relation, object);
        assert_eq!(response.reason, Some("unknown permission".to_string()));
    }
}

#[test]
fn banking_malformed_and_dangling_requests_are_denied() {
    let demo = BankingDemo::new();
    assert!(!demo.check_authorization(&asks("alice", "can_view", "account:acc1")).allowed);
    assert!(!demo.check_authorization(&asks("user:alice", "can_view", "account")).allowed);
    assert!(!demo.check_authorization(&asks("user:alice", "can_view", "account:acc9")).allowed);
    assert!(!demo.check_authorization(&asks("user:", "can_view", "account:acc1")).allowed);
}

#[test]
fn banking_checks_reflect_the_records_as_they_stand() {
    let mut demo = BankingDemo::new();
    assert!(!demo.check_authorization(&asks("user:eve", "can_view", "account:acc1")).allowed);
    demo.add_account_with_params(AccountParams {
        id: "acc1".to_string(),
        account_number: "1001".to_string(),
        parent_branch_id: "branch1".to_string(),
        owners: names(&["alice"]),
        co_owners: names(&["eve"]),
        balance: 500_000,
        account_type: "checking".to_string(),
    });
    assert_eq!(demo.accounts.len(), 2);
    assert!(demo.check_authorization(&asks("user:eve", "can_view", "account:acc1")).allowed);
    assert!(demo.check_authorization(&asks("user:alice", "can_view", "account:acc1")).allowed);

    // A new manager takes over the branch.
    demo.add_branch("branch1", "Downtown Branch", "bank1", Some("frank".to_string()), names(&["charlie"]));
    assert_eq!(demo.branches.len(), 1);
    assert!(demo.check_authorization(&asks("user:frank", "can_withdraw", "account:acc1")).allowed);
    assert!(!demo.check_authorization(&asks("user:diana", "can_withdraw", "account:acc1")).allowed);
}

#[test]
fn banking_account_of_a_missing_branch_is_open_to_holders_only() {
    let mut demo = BankingDemo::new();
    demo.add_account("acc7", "1007", "branch9", names(&["bob"]), vec![], 0, "savings");
    assert!(demo.check_authorization(&asks("user:bob", "can_view", "account:acc7")).allowed);
    assert!(!demo.check_authorization(&asks("user:charlie", "can_view", "account:acc7")).allowed);
    assert!(!demo.check_authorization(&asks("user:diana", "can_withdraw", "account:acc7")).allowed);
}

#[test]
fn banking_records_are_stored_under_their_ids() {
    let mut demo = BankingDemo::empty();
    assert!(demo.users.is_empty());
    demo.add_user("u1", "First", "customer");
    demo.add_user("u2", "Second", "customer");
    demo.add_user("u1", "Renamed", "teller");
    assert_eq!(demo.users.len(), 2);
    assert_eq!(demo.users[0].name, "Renamed");
    assert_eq!(demo.users[0].role, "teller");
    demo.add_bank("b", "Bank", names(&["u1"]), vec![]);
    assert_eq!(demo.banks[0].admins, names(&["u1"]));
    demo.add_loan_with_params(LoanParams {
        id: "l1".to_string(),
        parent_branch_id: "br".to_string(),
        borrower_id: "u2".to_string(),
        co_borrowers: vec![],
        loan_officer_id: "u1".to_string(),
        amount: 1_000_00,
        status: "pending".to_string(),
        interest_rate: 425,
    });
    assert_eq!(demo.loans[0].interest_rate, 425);
    assert!(demo.check_authorization(&asks("user:u1", "can_modify", "loan:l1")).allowed);
    assert!(!demo.check_authorization(&asks("user:u2", "can_modify", "loan:l1")).allowed);
}

#[test]
fn banking_transactions_are_stamped_and_completed() {
    let mut demo = BankingDemo::new();
    demo.add_transaction("t1", Some("acc1".to_string()), "acc2", "alice", 2_500, "transfer");
    demo.record_transaction("t2", None, "acc1", "charlie", 100, "deposit", "2024-01-01T00:00:00+00:00".to_string());
    assert_eq!(demo.transactions.len(), 2);
    assert_eq!(demo.transactions[0].status, "completed");
    assert_eq!(demo.transactions[0].amount, 2_500);
    assert!(demo.transactions[0].timestamp.contains('T'));
    assert_eq!(demo.transactions[1].timestamp, "2024-01-01T00:00:00+00:00");
    assert_eq!(demo.transactions[1].source_account_id, None);
    // Transactions are no part of the graph.
    assert_eq!(demo.graph().len(), 11);
}

#[test]
fn banking_demo_data_is_as_loaded() {
    let demo = BankingDemo::new();
    assert_eq!(demo.users.len(), 6);
    assert_eq!(demo.users[5].name, "Frank Miller");
    assert_eq!(demo.branches[0].manager_id, Some("diana".to_string()));
    assert_eq!(demo.accounts[0].balance, 500_000);
    assert_eq!(demo.accounts[1].co_owners, names(&["alice"]));
    assert_eq!(demo.loans[0].amount, 5_000_000);
    assert_eq!(demo.loans[0].interest_rate, 350);
    assert!(demo.transactions.is_empty());
    assert_eq!(BankingDemo::rules().len(), 10);
}

#[test]
fn genai_query_results_need_every_cited_document() {
    let mut demo = GenAIRAGDemo::new();
    assert!(demo.check_authorization(&asks("user:bob", "can_access_results", "rag_query:query1")).allowed);

    // A query that also cites the confidential document is closed to Bob.
    demo.add_rag_query(
        "query2",
        "session1",
        "bob",
        "What is the internal process?",
        names(&["doc1", "doc3"]),
        "Internally ...",
        80,
    );
    assert!(demo.check_authorization(&asks("user:bob", "can_view", "rag_query:query2")).allowed);
    assert!(!demo.check_authorization(&asks("user:bob", "can_access_results", "rag_query:query2")).allowed);
    assert_eq!(
        demo.get_filtered_rag_response("query2", "bob"),
        Some("Access denied: Insufficient permissions to view query results".to_string())
    );
    // A query that is not held is answered with the notice as well.
    assert_eq!(
        demo.get_filtered_rag_response("query3", "bob"),
        Some("Access denied: Insufficient permissions to view query results".to_string())
    );
}

#[test]
fn genai_revoking_one_cited_document_denies_the_results() {
    let mut demo = GenAIRAGDemo::new();
    let results = asks("user:bob", "can_access_results", "rag_query:query1");
    assert!(demo.check_authorization(&results).allowed);

    // Bob loses every way to the cited document.
    demo.store_document(
        "doc1",
        "API Documentation",
        "Comprehensive API documentation for the system",
        "kb1",
        "alice",
        vec![],
        vec![],
        names(&["api", "documentation"]),
        "2024-01-01T00:00:00+00:00",
    );
    assert_eq!(demo.documents.len(), 3);
    assert!(!demo.check_authorization(&asks("user:bob", "can_view", "document:doc1")).allowed);
    assert!(!demo.check_authorization(&results).allowed);
    // He still initiated the query.
    assert!(demo.check_authorization(&asks("user:bob", "can_view", "rag_query:query1")).allowed);
    // The curator is not affected.
    assert!(demo.check_authorization(&asks("user:alice", "can_view", "document:doc1")).allowed);
}

#[test]
fn genai_owner_sees_every_own_document() {
    let mut demo = GenAIRAGDemo::new();
    let ids = |docs: Vec<&openfga_operator::demos::genai_rag::Document>| -> Vec<String> {
        docs.iter().map(|d| d.id.clone()).collect()
    };
    assert_eq!(ids(demo.get_documents_for_user("alice")), vec!["doc1", "doc2", "doc3"]);
    assert_eq!(ids(demo.get_documents_for_user("diana")), vec!["doc1", "doc2", "doc3"]);
    assert_eq!(ids(demo.get_documents_for_user("bob")), vec!["doc1", "doc2"]);
    assert_eq!(ids(demo.get_documents_for_user("eve")), vec!["doc1", "doc2"]);
    assert!(demo.get_documents_for_user("mallory").is_empty());

    // A document of a knowledge base that nobody else can reach.
    demo.add_document("doc9", "Notes", "private", "kb9", "mallory", vec![], vec![], vec![]);
    assert_eq!(ids(demo.get_documents_for_user("mallory")), vec!["doc9"]);
    assert_eq!(ids(demo.get_documents_for_user("alice")), vec!["doc1", "doc2", "doc3"]);
}

#[test]
fn genai_confidential_default_ignores_view_rights() {
    let demo = GenAIRAGDemo::new();
    // Everybody here may view the knowledge base.
    for user in ["user:alice", "user:bob", "user:charlie", "user:diana", "user:eve"] {
        assert!(demo.check_authorization(&asks(user, "can_view", "knowledge_base:kb1")).allowed);
    }
    // The document without viewers and editors is open to its owner and the curator only.
    assert!(demo.check_authorization(&asks("user:diana", "can_view", "document:doc3")).allowed);
    assert!(demo.check_authorization(&asks("user:alice", "can_view", "document:doc3")).allowed);
    for user in ["user:bob", "user:charlie", "user:eve"] {
        assert!(!demo.check_authorization(&asks(user, "can_view", "document:doc3")).allowed);
        assert!(!demo.check_authorization(&asks(user, "can_use_in_rag", "document:doc3")).allowed);
        // The same users reach a document that names viewers.
        assert!(demo.check_authorization(&asks(user, "can_view", "document:doc2")).allowed);
    }
}

#[test]
fn genai_session_documents_need_membership_and_view_rights() {
    let mut demo = GenAIRAGDemo::new();
    assert!(demo.check_authorization(&asks("user:bob", "can_access_documents", "rag_session:session1")).allowed);
    assert!(demo.check_authorization(&asks("user:charlie", "can_access_documents", "rag_session:session1")).allowed);
    // A curator who takes no part in the session has no access through it.
    assert!(!demo.check_authorization(&asks("user:alice", "can_access_documents", "rag_session:session1")).allowed);
    // A participant who cannot view the knowledge base has none either.
    demo.add_rag_session("session2", "Guest Session", "kb1", "model1", "mallory", vec![]);
    assert!(demo.check_authorization(&asks("user:mallory", "can_query", "rag_session:session2")).allowed);
    assert!(!demo.check_authorization(&asks("user:mallory", "can_access_documents", "rag_session:session2")).allowed);
    assert_eq!(demo.rag_sessions[1].status, "active");
}

#[test]
fn genai_organization_roles_reach_models_and_knowledge_bases() {
    let demo = GenAIRAGDemo::new();
    assert!(demo.check_authorization(&asks("user:diana", "can_admin", "knowledge_base:kb1")).allowed);
    assert!(demo.check_authorization(&asks("user:alice", "can_admin", "knowledge_base:kb1")).allowed);
    assert!(!demo.check_authorization(&asks("user:bob", "can_admin", "knowledge_base:kb1")).allowed);
    assert!(!demo.check_authorization(&asks("user:diana", "can_curate", "knowledge_base:kb1")).allowed);
    assert!(demo.check_authorization(&asks("user:diana", "can_configure", "ai_model:model1")).allowed);
    assert!(demo.check_authorization(&asks("user:diana", "can_use", "ai_model:model1")).allowed);
    assert!(!demo.check_authorization(&asks("user:diana", "can_admin", "ai_model:model1")).allowed);
    assert!(demo.check_authorization(&asks("user:eve", "can_admin", "ai_model:model1")).allowed);
    // The lists of the organization itself cannot be requested.
    for relation in ["member", "admin", "can_view"] {
        assert!(!demo.check_authorization(&asks("user:diana", relation, "organization:org1")).allowed);
    }
}

#[test]
fn genai_demo_data_is_as_loaded() {
    let demo = GenAIRAGDemo::new();
    assert_eq!(demo.users.len(), 5);
    assert_eq!(demo.users[4].email, "eve@company.com");
    assert_eq!(demo.organizations[0].members, names(&["alice", "bob", "charlie", "eve"]));
    assert_eq!(demo.documents.len(), 3);
    assert_eq!(demo.documents[1].viewers, names(&["bob", "charlie"]));
    assert_eq!(demo.documents[2].tags, names(&["internal", "confidential"]));
    assert_eq!(demo.documents[0].created_at, demo.documents[0].updated_at);
    assert!(!demo.documents[0].created_at.is_empty());
    let settings: Vec<(String, String)> = demo.ai_models[0]
        .config
        .iter()
        .map(|s| (s.name.clone(), s.value.clone()))
        .collect();
    assert_eq!(
        settings,
        vec![
            ("max_tokens".to_string(), "4000".to_string()),
            ("temperature".to_string(), "0.7".to_string()),
        ]
    );
    assert_eq!(demo.rag_queries[0].confidence_score, 95);
    assert_eq!(demo.rag_queries[0].queried_documents, names(&["doc1"]));
    assert_eq!(GenAIRAGDemo::rules().len(), 18);
    assert_eq!(demo.graph().len(), 13);
    assert!(GenAIRAGDemo::empty().get_tuples().is_empty());
}

#[test]
fn genai_records_hold_each_id_once() {
    let mut demo = GenAIRAGDemo::new();
    // A document stored under an id that is held takes the place of the old one.
    demo.add_document("doc3", "Internal Process", "rewritten", "kb1", "eve", vec![], vec![], vec![]);
    assert_eq!(demo.documents.len(), 3);
    assert_eq!(demo.documents[2].owner_id, "eve");
    let own = |demo: &GenAIRAGDemo, user: &str| -> Vec<String> {
        demo.get_documents_for_user(user)
            .iter()
            .filter(|d| d.owner_id == user)
            .map(|d| d.id.clone())
            .collect()
    };
    // Every user is shown every document of their own.
    assert_eq!(own(&demo, "alice"), vec!["doc1", "doc2"]);
    assert_eq!(own(&demo, "eve"), vec!["doc3"]);
    assert!(own(&demo, "diana").is_empty());
    assert!(!demo.check_authorization(&asks("user:diana", "can_view", "document:doc3")).allowed);

    demo.add_user("eve", "Eve Adams", "eve@company.com", "curator");
    demo.add_rag_session("session1", "API Help Session", "kb1", "model1", "alice", vec![]);
    assert_eq!(demo.users.len(), 5);
    assert_eq!(demo.rag_sessions.len(), 1);
    assert_eq!(demo.rag_sessions[0].owner_id, "alice");
}

#[test]
fn banking_records_hold_each_id_once() {
    let mut demo = BankingDemo::new();
    demo.add_account("acc2", "1002", "branch1", names(&["eve"]), vec![], 1, "savings");
    demo.add_loan("loan1", "branch1", "bob", vec![], "eve", 10, "approved", 100);
    demo.add_bank("bank1", "First National Bank", names(&["frank"]), vec![]);
    assert_eq!(demo.accounts.len(), 2);
    assert_eq!(demo.loans.len(), 1);
    assert_eq!(demo.banks.len(), 1);
    assert_eq!(demo.accounts[1].owners, names(&["eve"]));
    assert!(demo.check_authorization(&asks("user:eve", "can_transfer", "account:acc2")).allowed);
    assert!(!demo.check_authorization(&asks("user:bob", "can_transfer", "account:acc2")).allowed);
    assert!(demo.check_authorization(&asks("user:bob", "can_view", "loan:loan1")).allowed);
    assert!(!demo.check_authorization(&asks("user:alice", "can_view", "loan:loan1")).allowed);
}
