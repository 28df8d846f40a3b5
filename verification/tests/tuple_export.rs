use openfga_operator::demos::banking_app::BankingDemo;
use openfga_operator::demos::genai_rag::GenAIRAGDemo;
use openfga_operator::graph::{Entity, Link, ObjectGraph};
use openfga_operator::tuples::{materialize, materialize_entity, OpenFGATuple, TupleCursor};

fn triples(tuples: &[OpenFGATuple]) -> Vec<(String, String, String)> {
    tuples.iter().map(|t| (t.user.clone(), t.relation.clone(), t.object.clone())).collect()
}

fn triple(user: &str, relation: &str, object: &str) -> (String, String, String) {
    (user.to_string(), relation.to_string(), object.to_string())
}

#[test]
fn entity_yields_edges_then_members_then_references() {
    let mut query = Entity::new("rag_query", "q1");
    query.add_parent(Link::new("parent_session", "rag_session", "s1"));
    query.add_member("initiated_by", "bob");
    query.add_reference(Link::new("queried_documents", "document", "d1"));
    query.add_reference(Link::new("queried_documents", "document", "d2"));

    assert_eq!(
        triples(&materialize_entity(&query)),
        vec![
            triple("rag_session:s1", "parent_session", "rag_query:q1"),
            triple("user:bob", "initiated_by", "rag_query:q1"),
            triple("document:d1", "queried_documents", "rag_query:q1"),
            triple("document:d2", "queried_documents", "rag_query:q1"),
        ]
    );
}

#[test]
fn entity_without_edges_or_members_yields_nothing() {
    assert!(materialize_entity(&Entity::new("user", "alice")).is_empty());
    assert!(materialize(&ObjectGraph::new()).is_empty());
}

#[test]
fn graph_yields_the_tuples_of_its_entities_in_order() {
    let mut graph = ObjectGraph::new();
    let mut account = Entity::new("account", "a");
    account.add_member("owner", "alice");
    account.add_member("owner", "bob");
    let mut branch = Entity::new("branch", "b");
    branch.add_member("teller", "carol");
    graph.put(account);
    graph.put(branch);
    assert_eq!(
        triples(&materialize(&graph)),
        vec![
            triple("user:alice", "owner", "account:a"),
            triple("user:bob", "owner", "account:a"),
            triple("user:carol", "teller", "branch:b"),
        ]
    );
}

#[test]
fn banking_tuples_cover_every_relation() {
    let demo = BankingDemo::new();
    let all = triples(demo.get_tuples());
    assert_eq!(all.len(), 14);
    for expected in [
        triple("user:frank", "admin", "bank:bank1"),
        triple("user:diana", "manager", "bank:bank1"),
        triple("bank:bank1", "parent_bank", "branch:branch1"),
        triple("user:diana", "manager", "branch:branch1"),
        triple("user:charlie", "teller", "branch:branch1"),
        triple("branch:branch1", "parent_branch", "account:acc1"),
        triple("user:alice", "owner", "account:acc1"),
        triple("branch:branch1", "parent_branch", "account:acc2"),
        triple("user:bob", "owner", "account:acc2"),
        triple("user:alice", "co_owner", "account:acc2"),
        triple("branch:branch1", "parent_branch", "loan:loan1"),
        triple("user:alice", "borrower", "loan:loan1"),
        triple("user:bob", "co_borrower", "loan:loan1"),
        triple("user:eve", "loan_officer", "loan:loan1"),
    ] {
        assert!(all.contains(&expected), "missing {:?}", expected);
    }
}

#[test]
fn genai_tuples_cover_every_relation() {
    let demo = GenAIRAGDemo::new();
    let all = triples(demo.get_tuples());
    assert_eq!(all.len(), 31);
    for expected in [
        triple("user:diana", "admin", "organization:org1"),
        triple("user:eve", "member", "organization:org1"),
        triple("organization:org1", "parent_org", "knowledge_base:kb1"),
        triple("user:alice", "curator", "knowledge_base:kb1"),
        triple("knowledge_base:kb1", "parent_kb", "document:doc3"),
        triple("user:diana", "owner", "document:doc3"),
        triple("user:bob", "editor", "document:doc1"),
        triple("user:charlie", "viewer", "document:doc2"),
        triple("organization:org1", "parent_org", "ai_model:model1"),
        triple("user:eve", "operator", "ai_model:model1"),
        triple("user:bob", "user", "ai_model:model1"),
        triple("knowledge_base:kb1", "parent_kb", "rag_session:session1"),
        triple("ai_model:model1", "parent_model", "rag_session:session1"),
        triple("user:bob", "owner", "rag_session:session1"),
        triple("user:charlie", "participant", "rag_session:session1"),
        triple("rag_session:session1", "parent_session", "rag_query:query1"),
        triple("user:bob", "initiated_by", "rag_query:query1"),
        triple("document:doc1", "queried_documents", "rag_query:query1"),
    ] {
        assert!(all.contains(&expected), "missing {:?}", expected);
    }
}

#[test]
fn tuples_are_derived_anew_on_request() {
    let mut demo = BankingDemo::new();
    demo.add_account("acc3", "1003", "branch1", vec!["eve".to_string()], vec![], 10, "checking");
    // The tuples of the loading stay as they were until they are derived again.
    assert_eq!(demo.get_tuples().len(), 14);
    demo.tuples.clear();
    demo.setup_authorization_tuples();
    let all = triples(demo.get_tuples());
    assert_eq!(all.len(), 16);
    assert!(all.contains(&triple("user:eve", "owner", "account:acc3")));
    assert!(all.contains(&triple("branch:branch1", "parent_branch", "account:acc3")));
}

#[test]
fn cursor_walks_the_tuples_one_by_one() {
    let demo = GenAIRAGDemo::new();
    let graph = demo.graph();
    let all = triples(&materialize(&graph));

    let mut cursor = TupleCursor::start();
    let mut walked = Vec::new();
    while let Some(tuple) = cursor.next(&graph) {
        walked.push(tuple);
    }
    assert_eq!(triples(&walked), all);
    assert!(cursor.next(&graph).is_none());

    // A new cursor starts over.
    let mut again = TupleCursor::start();
    let first = again.next(&graph).unwrap();
    assert_eq!((first.user, first.relation, first.object), all[0].clone());

    assert!(TupleCursor::start().next(&ObjectGraph::new()).is_none());
}
