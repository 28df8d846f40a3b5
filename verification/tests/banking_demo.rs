use openfga_operator::demos::banking_app::{AuthorizationRequest, BankingDemo};

#[test]
fn test_banking_demo_creation() {
    let demo = BankingDemo::new();
    assert!(!demo.users.is_empty());
    assert!(!demo.banks.is_empty());
    assert!(!demo.branches.is_empty());
    assert!(!demo.accounts.is_empty());
    assert!(!demo.loans.is_empty());
    assert!(!demo.tuples.is_empty());
}

#[test]
fn test_account_owner_can_view() {
    let demo = BankingDemo::new();
    let request = AuthorizationRequest {
        user: "user:alice".to_string(),
        relation: "can_view".to_string(),
        object: "account:acc1".to_string(),
    };
    let response = demo.check_authorization(&request);
    assert!(response.allowed);
}

#[test]
fn test_account_co_owner_can_view() {
    let demo = BankingDemo::new();
    let request = AuthorizationRequest {
        user: "user:alice".to_string(),
        relation: "can_view".to_string(),
        object: "account:acc2".to_string(),
    };
    let response = demo.check_authorization(&request);
    assert!(response.allowed);
}

#[test]
fn test_branch_employee_can_view_account() {
    let demo = BankingDemo::new();
    let request = AuthorizationRequest {
        user: "user:charlie".to_string(), // teller
        relation: "can_view".to_string(),
        object: "account:acc1".to_string(),
    };
    let response = demo.check_authorization(&request);
    assert!(response.allowed);
}

#[test]
fn test_unauthorized_user_cannot_view_account() {
    let demo = BankingDemo::new();
    let request = AuthorizationRequest {
        user: "user:eve".to_string(), // loan officer, not related to account
        relation: "can_view".to_string(),
        object: "account:acc1".to_string(),
    };
    let response = demo.check_authorization(&request);
    assert!(!response.allowed);
}

#[test]
fn test_owner_can_transfer() {
    let demo = BankingDemo::new();
    let request = AuthorizationRequest {
        user: "user:alice".to_string(),
        relation: "can_transfer".to_string(),
        object: "account:acc1".to_string(),
    };
    let response = demo.check_authorization(&request);
    assert!(response.allowed);
}

#[test]
fn test_teller_can_deposit() {
    let demo = BankingDemo::new();
    let request = AuthorizationRequest {
        user: "user:charlie".to_string(), // teller
        relation: "can_deposit".to_string(),
        object: "account:acc1".to_string(),
    };
    let response = demo.check_authorization(&request);
    assert!(response.allowed);
}

#[test]
fn test_manager_can_withdraw() {
    let demo = BankingDemo::new();
    let request = AuthorizationRequest {
        user: "user:diana".to_string(), // branch manager
        relation: "can_withdraw".to_string(),
        object: "account:acc1".to_string(),
    };
    let response = demo.check_authorization(&request);
    assert!(response.allowed);
}

#[test]
fn test_loan_officer_can_view_loan() {
    let demo = BankingDemo::new();
    let request = AuthorizationRequest {
        user: "user:eve".to_string(), // loan officer
        relation: "can_view".to_string(),
        object: "loan:loan1".to_string(),
    };
    let response = demo.check_authorization(&request);
    assert!(response.allowed);
}

#[test]
fn test_borrower_can_view_loan() {
    let demo = BankingDemo::new();
    let request = AuthorizationRequest {
        user: "user:alice".to_string(), // borrower
        relation: "can_view".to_string(),
        object: "loan:loan1".to_string(),
    };
    let response = demo.check_authorization(&request);
    assert!(response.allowed);
}

#[test]
fn test_loan_officer_can_approve_loan() {
    let demo = BankingDemo::new();
    let request = AuthorizationRequest {
        user: "user:eve".to_string(), // loan officer
        relation: "can_approve".to_string(),
        object: "loan:loan1".to_string(),
    };
    let response = demo.check_authorization(&request);
    assert!(response.allowed);
}

#[test]
fn test_loan_officer_can_modify_loan() {
    let demo = BankingDemo::new();
    let request = AuthorizationRequest {
        user: "user:eve".to_string(), // loan officer
        relation: "can_modify".to_string(),
        object: "loan:loan1".to_string(),
    };
    let response = demo.check_authorization(&request);
    assert!(response.allowed);
}

#[test]
fn test_unauthorized_user_cannot_approve_loan() {
    let demo = BankingDemo::new();
    let request = AuthorizationRequest {
        user: "user:alice".to_string(), // borrower, not loan officer
        relation: "can_approve".to_string(),
        object: "loan:loan1".to_string(),
    };
    let response = demo.check_authorization(&request);
    assert!(!response.allowed);
}
