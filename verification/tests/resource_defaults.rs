use openfga_operator::crd;
use openfga_operator::types::{
    default_engine, default_grpc_port, default_http_port, default_image, default_playground_port,
    default_replicas, OpenFGAStatus,
};

#[test]
fn specification_defaults() {
    assert_eq!(default_replicas(), 1);
    assert_eq!(default_image(), "openfga/openfga:latest");
    assert_eq!(default_engine(), "memory");
    assert_eq!(default_playground_port(), 3000);
    assert_eq!(default_grpc_port(), 8081);
    assert_eq!(default_http_port(), 8080);
}

#[test]
fn resource_definition_defaults() {
    assert_eq!(crd::default_image_pull_policy(), "IfNotPresent");
    assert_eq!(crd::default_replicas(), 1);
}

#[test]
fn default_status_reports_nothing() {
    let status = OpenFGAStatus::default();
    assert_eq!(status.replicas, None);
    assert_eq!(status.ready_replicas, None);
    assert!(status.conditions.is_none());
}
