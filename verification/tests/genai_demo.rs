use openfga_operator::demos::genai_rag::{AuthorizationRequest, GenAIRAGDemo};

#[test]
fn test_genai_demo_creation() {
    let demo = GenAIRAGDemo::new();
    assert!(!demo.users.is_empty());
    assert!(!demo.organizations.is_empty());
    assert!(!demo.knowledge_bases.is_empty());
    assert!(!demo.documents.is_empty());
    assert!(!demo.ai_models.is_empty());
    assert!(!demo.rag_sessions.is_empty());
    assert!(!demo.rag_queries.is_empty());
    assert!(!demo.tuples.is_empty());
}

#[test]
fn test_curator_can_view_kb() {
    let demo = GenAIRAGDemo::new();
    let request = AuthorizationRequest {
        user: "user:alice".to_string(), // curator
        relation: "can_view".to_string(),
        object: "knowledge_base:kb1".to_string(),
    };
    let response = demo.check_authorization(&request);
    assert!(response.allowed);
}

#[test]
fn test_contributor_can_contribute_to_kb() {
    let demo = GenAIRAGDemo::new();
    let request = AuthorizationRequest {
        user: "user:bob".to_string(), // contributor
        relation: "can_contribute".to_string(),
        object: "knowledge_base:kb1".to_string(),
    };
    let response = demo.check_authorization(&request);
    assert!(response.allowed);
}

#[test]
fn test_reader_cannot_contribute_to_kb() {
    let demo = GenAIRAGDemo::new();
    let request = AuthorizationRequest {
        user: "user:charlie".to_string(), // reader
        relation: "can_contribute".to_string(),
        object: "knowledge_base:kb1".to_string(),
    };
    let response = demo.check_authorization(&request);
    assert!(!response.allowed);
}

#[test]
fn test_org_member_can_view_kb() {
    let demo = GenAIRAGDemo::new();
    let request = AuthorizationRequest {
        user: "user:eve".to_string(), // org member but not direct KB role
        relation: "can_view".to_string(),
        object: "knowledge_base:kb1".to_string(),
    };
    let response = demo.check_authorization(&request);
    assert!(response.allowed);
}

#[test]
fn test_document_owner_can_view_document() {
    let demo = GenAIRAGDemo::new();
    let request = AuthorizationRequest {
        user: "user:alice".to_string(), // owner of doc1
        relation: "can_view".to_string(),
        object: "document:doc1".to_string(),
    };
    let response = demo.check_authorization(&request);
    assert!(response.allowed);
}

#[test]
fn test_document_editor_can_edit_document() {
    let demo = GenAIRAGDemo::new();
    let request = AuthorizationRequest {
        user: "user:bob".to_string(), // editor of doc1
        relation: "can_edit".to_string(),
        object: "document:doc1".to_string(),
    };
    let response = demo.check_authorization(&request);
    assert!(response.allowed);
}

#[test]
fn test_document_viewer_cannot_edit_document() {
    let demo = GenAIRAGDemo::new();
    let request = AuthorizationRequest {
        user: "user:charlie".to_string(), // viewer of doc1
        relation: "can_edit".to_string(),
        object: "document:doc1".to_string(),
    };
    let response = demo.check_authorization(&request);
    assert!(!response.allowed);
}

#[test]
fn test_kb_contributor_can_edit_document() {
    let demo = GenAIRAGDemo::new();
    let request = AuthorizationRequest {
        user: "user:bob".to_string(), // KB contributor
        relation: "can_edit".to_string(),
        object: "document:doc2".to_string(), // doc2 which bob doesn't directly edit
    };
    let response = demo.check_authorization(&request);
    assert!(response.allowed);
}

#[test]
fn test_curator_can_delete_document() {
    let demo = GenAIRAGDemo::new();
    let request = AuthorizationRequest {
        user: "user:alice".to_string(), // curator
        relation: "can_delete".to_string(),
        object: "document:doc2".to_string(),
    };
    let response = demo.check_authorization(&request);
    assert!(response.allowed);
}

#[test]
fn test_model_operator_can_configure_model() {
    let demo = GenAIRAGDemo::new();
    let request = AuthorizationRequest {
        user: "user:eve".to_string(), // model operator
        relation: "can_configure".to_string(),
        object: "ai_model:model1".to_string(),
    };
    let response = demo.check_authorization(&request);
    assert!(response.allowed);
}

#[test]
fn test_model_user_can_use_model() {
    let demo = GenAIRAGDemo::new();
    let request = AuthorizationRequest {
        user: "user:alice".to_string(), // model user
        relation: "can_use".to_string(),
        object: "ai_model:model1".to_string(),
    };
    let response = demo.check_authorization(&request);
    assert!(response.allowed);
}

#[test]
fn test_model_user_cannot_configure_model() {
    let demo = GenAIRAGDemo::new();
    let request = AuthorizationRequest {
        user: "user:alice".to_string(), // model user, not operator
        relation: "can_configure".to_string(),
        object: "ai_model:model1".to_string(),
    };
    let response = demo.check_authorization(&request);
    assert!(!response.allowed);
}

#[test]
fn test_session_owner_can_query() {
    let demo = GenAIRAGDemo::new();
    let request = AuthorizationRequest {
        user: "user:bob".to_string(), // session owner
        relation: "can_query".to_string(),
        object: "rag_session:session1".to_string(),
    };
    let response = demo.check_authorization(&request);
    assert!(response.allowed);
}

#[test]
fn test_session_participant_can_view() {
    let demo = GenAIRAGDemo::new();
    let request = AuthorizationRequest {
        user: "user:charlie".to_string(), // session participant
        relation: "can_view".to_string(),
        object: "rag_session:session1".to_string(),
    };
    let response = demo.check_authorization(&request);
    assert!(response.allowed);
}

#[test]
fn test_query_initiator_can_view_query() {
    let demo = GenAIRAGDemo::new();
    let request = AuthorizationRequest {
        user: "user:bob".to_string(), // query initiator
        relation: "can_view".to_string(),
        object: "rag_query:query1".to_string(),
    };
    let response = demo.check_authorization(&request);
    assert!(response.allowed);
}

#[test]
fn test_authorized_user_can_access_query_results() {
    let demo = GenAIRAGDemo::new();
    let request = AuthorizationRequest {
        user: "user:bob".to_string(), // query initiator
        relation: "can_access_results".to_string(),
        object: "rag_query:query1".to_string(),
    };
    let response = demo.check_authorization(&request);
    assert!(response.allowed);
}

#[test]
fn test_get_filtered_documents() {
    let demo = GenAIRAGDemo::new();
    let docs = demo.get_documents_for_user("alice");
    assert!(!docs.is_empty());

    let docs = demo.get_documents_for_user("eve"); // eve has limited access
    // eve can see some docs through org membership but not all
    assert!(docs.len() <= demo.documents.len());
}

#[test]
fn test_get_filtered_rag_response() {
    let demo = GenAIRAGDemo::new();

    // Bob should be able to see query results
    let response = demo.get_filtered_rag_response("query1", "bob");
    assert!(response.is_some());
    assert!(response.unwrap().contains("OAuth"));

    // Someone without access should not
    let response = demo.get_filtered_rag_response("query1", "diana");
    assert!(response.is_some());
    assert!(response.unwrap().contains("Access denied"));
}

#[test]
fn test_confidential_document_access() {
    let demo = GenAIRAGDemo::new();

    // Diana (admin, owner of doc3) can view it
    let request = AuthorizationRequest {
        user: "user:diana".to_string(),
        relation: "can_view".to_string(),
        object: "document:doc3".to_string(),
    };
    let response = demo.check_authorization(&request);
    assert!(response.allowed);

    // Bob (contributor) cannot view confidential doc3
    let request = AuthorizationRequest {
        user: "user:bob".to_string(),
        relation: "can_view".to_string(),
        object: "document:doc3".to_string(),
    };
    let response = demo.check_authorization(&request);
    assert!(!response.allowed);
}
