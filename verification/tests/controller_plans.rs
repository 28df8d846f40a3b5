use openfga_operator::controller::{
    create_deployment, create_service, error_policy, reconcile, reconcile_start, ControllerError,
    Observed, ReconcileAction, ReconcileState,
};
use openfga_operator::types::{
    DatastoreConfig, GrpcConfig, HttpConfig, OpenFGA, OpenFGASpec, PlaygroundConfig,
};

fn create_test_openfga() -> OpenFGA {
    OpenFGA {
        name: Some("test-openfga".to_string()),
        generate_name: None,
        namespace: Some("test-ns".to_string()),
        spec: OpenFGASpec {
            replicas: 2,
            image: "openfga/openfga:v1.0.0".to_string(),
            datastore: DatastoreConfig { engine: "memory".to_string(), uri: None },
            playground: PlaygroundConfig { enabled: false, port: 3000 },
            grpc: GrpcConfig { port: 8081 },
            http: HttpConfig { port: 8080 },
        },
        status: None,
    }
}

#[test]
fn test_create_deployment() {
    let openfga = create_test_openfga();
    let deployment = create_deployment(&openfga, "test-ns", "test-openfga").unwrap();

    assert_eq!(deployment.name, "test-openfga");
    assert_eq!(deployment.namespace, "test-ns");

    assert_eq!(deployment.replicas, 2);

    assert_eq!(deployment.container_name, "openfga");
    assert_eq!(deployment.image, "openfga/openfga:v1.0.0");

    assert_eq!(deployment.ports.len(), 2); // grpc and http
}

#[test]
fn test_create_service() {
    let openfga = create_test_openfga();
    let service = create_service(&openfga, "test-ns", "test-openfga").unwrap();

    assert_eq!(service.name, "test-openfga");
    assert_eq!(service.namespace, "test-ns");

    let ports = service.ports;
    assert_eq!(ports.len(), 2); // grpc and http

    // Check that grpc port is present
    assert!(ports.iter().any(|p| p.name == "grpc" && p.port == 8081));
    // Check that http port is present
    assert!(ports.iter().any(|p| p.name == "http" && p.port == 8080));
}

#[test]
fn test_create_service_with_playground() {
    let mut openfga = create_test_openfga();
    openfga.spec.playground.enabled = true;

    let service = create_service(&openfga, "test-ns", "test-openfga").unwrap();
    let ports = service.ports;

    assert_eq!(ports.len(), 3); // grpc, http, and playground
    assert!(ports.iter().any(|p| p.name == "playground" && p.port == 3000));
}

#[test]
fn deployment_carries_the_instance_labels_and_tcp_ports() {
    let mut openfga = create_test_openfga();
    openfga.spec.playground.enabled = true;
    let deployment = create_deployment(&openfga, "ns", "fga").unwrap();
    let labels: Vec<(String, String)> =
        deployment.labels.iter().map(|l| (l.key.clone(), l.value.clone())).collect();
    assert_eq!(
        labels,
        vec![
            ("app".to_string(), "openfga".to_string()),
            ("instance".to_string(), "fga".to_string()),
        ]
    );
    let ports: Vec<(String, i32, String)> =
        deployment.ports.iter().map(|p| (p.name.clone(), p.port, p.protocol.clone())).collect();
    assert_eq!(
        ports,
        vec![
            ("grpc".to_string(), 8081, "TCP".to_string()),
            ("http".to_string(), 8080, "TCP".to_string()),
            ("playground".to_string(), 3000, "TCP".to_string()),
        ]
    );
}

#[test]
fn service_is_reached_inside_the_cluster() {
    let service = create_service(&create_test_openfga(), "ns", "fga").unwrap();
    assert_eq!(service.service_type, "ClusterIP");
    assert_eq!(service.labels.len(), 2);
    assert_eq!(service.labels[1].value, "fga");
}

fn seconds_after(message: &str) -> u64 {
    error_policy(&ControllerError::Kube(message.to_string())).requeue_after_secs
}

#[test]
fn error_policy_waits_by_the_kind_of_failure() {
    assert_eq!(seconds_after("ApiError: NotFound: deployments \"x\" not found"), 5);
    assert_eq!(seconds_after("ApiError: Conflict"), 1);
    assert_eq!(seconds_after("Forbidden: no access"), 300);
    assert_eq!(seconds_after("Unauthorized"), 300);
    assert_eq!(seconds_after("TooManyRequests"), 60);
    assert_eq!(seconds_after("request throttled by the server"), 60);
    assert_eq!(seconds_after("timeout while waiting"), 30);
    assert_eq!(seconds_after("connection refused"), 30);
    assert_eq!(seconds_after("something else"), 30);
    assert_eq!(seconds_after(""), 30);
    assert_eq!(
        error_policy(&ControllerError::Serialization("NotFound".to_string())).requeue_after_secs,
        120
    );
}

#[test]
fn error_policy_takes_the_first_kind_that_the_message_names() {
    assert_eq!(seconds_after("Conflict after NotFound"), 5);
    assert_eq!(seconds_after("Forbidden, Conflict"), 1);
    assert_eq!(seconds_after("throttled and Unauthorized"), 300);
    // The kinds are matched as written.
    assert_eq!(seconds_after("notfound"), 30);
}

#[test]
fn error_message_names_the_source() {
    assert_eq!(
        ControllerError::Kube("boom".to_string()).message(),
        "Kubernetes API error: boom"
    );
    assert_eq!(
        ControllerError::Serialization("bad json".to_string()).message(),
        "Serialization error: bad json"
    );
}

fn nothing_observed() -> Observed {
    Observed { replicas: None, ready_replicas: None }
}

fn failed(message: &str) -> Result<Observed, ControllerError> {
    Err(ControllerError::Kube(message.to_string()))
}

#[test]
fn reconciliation_runs_through_all_requests() {
    let openfga = create_test_openfga();

    let step = reconcile_start();
    assert!(matches!(step.action, ReconcileAction::GetDeployment));
    assert_eq!(step.next, Some(ReconcileState::AwaitDeployment));

    // The deployment is applied although it was not found.
    let step = reconcile(&openfga, ReconcileState::AwaitDeployment, failed("NotFound"));
    match step.action {
        ReconcileAction::ApplyDeployment(plan) => {
            assert_eq!(plan.name, "test-openfga");
            assert_eq!(plan.namespace, "test-ns");
            assert_eq!(plan.replicas, 2);
        }
        other => panic!("unexpected action {:?}", other),
    }
    assert_eq!(step.next, Some(ReconcileState::AwaitDeploymentPatch));

    let step = reconcile(&openfga, ReconcileState::AwaitDeploymentPatch, Ok(nothing_observed()));
    assert!(matches!(step.action, ReconcileAction::GetService));
    assert_eq!(step.next, Some(ReconcileState::AwaitService));

    let step = reconcile(&openfga, ReconcileState::AwaitService, Ok(nothing_observed()));
    match step.action {
        ReconcileAction::ApplyService(plan) => {
            assert_eq!(plan.name, "test-openfga");
            assert_eq!(plan.ports.len(), 2);
        }
        other => panic!("unexpected action {:?}", other),
    }
    assert_eq!(step.next, Some(ReconcileState::AwaitServicePatch));

    let step = reconcile(&openfga, ReconcileState::AwaitServicePatch, Ok(nothing_observed()));
    assert!(matches!(step.action, ReconcileAction::GetDeployment));
    assert_eq!(step.next, Some(ReconcileState::AwaitStatusLookup));

    let step = reconcile(
        &openfga,
        ReconcileState::AwaitStatusLookup,
        Ok(Observed { replicas: Some(2), ready_replicas: Some(1) }),
    );
    match step.action {
        ReconcileAction::PatchStatus(status) => {
            assert_eq!(status.replicas, Some(2));
            assert_eq!(status.ready_replicas, Some(1));
            assert!(status.conditions.is_none());
        }
        other => panic!("unexpected action {:?}", other),
    }
    assert_eq!(step.next, Some(ReconcileState::AwaitStatusPatch));

    let step = reconcile(&openfga, ReconcileState::AwaitStatusPatch, Ok(nothing_observed()));
    match step.action {
        ReconcileAction::Succeed(action) => assert_eq!(action.requeue_after_secs, 60),
        other => panic!("unexpected action {:?}", other),
    }
    assert_eq!(step.next, None);
}

#[test]
fn reconciliation_fails_when_an_apply_fails() {
    let openfga = create_test_openfga();
    let step = reconcile(&openfga, ReconcileState::AwaitDeploymentPatch, failed("Forbidden"));
    match step.action {
        ReconcileAction::Fail(ControllerError::Kube(message)) => assert_eq!(message, "Forbidden"),
        other => panic!("unexpected action {:?}", other),
    }
    assert_eq!(step.next, None);

    let step = reconcile(&openfga, ReconcileState::AwaitServicePatch, failed("Conflict"));
    match step.action {
        ReconcileAction::Fail(ControllerError::Kube(message)) => assert_eq!(message, "Conflict"),
        other => panic!("unexpected action {:?}", other),
    }
    assert_eq!(step.next, None);
}

#[test]
fn reconciliation_survives_a_failed_status_update() {
    let openfga = create_test_openfga();
    let step = reconcile(&openfga, ReconcileState::AwaitStatusLookup, failed("NotFound"));
    match step.action {
        ReconcileAction::Succeed(action) => assert_eq!(action.requeue_after_secs, 60),
        other => panic!("unexpected action {:?}", other),
    }
    assert_eq!(step.next, None);

    let step = reconcile(&openfga, ReconcileState::AwaitStatusPatch, failed("timeout"));
    match step.action {
        ReconcileAction::Succeed(action) => assert_eq!(action.requeue_after_secs, 60),
        other => panic!("unexpected action {:?}", other),
    }
    assert_eq!(step.next, None);
}

#[test]
fn resource_is_addressed_by_name_then_prefix() {
    let mut openfga = create_test_openfga();
    assert_eq!(openfga.name_any(), "test-openfga");
    assert_eq!(openfga.namespace_or_default(), "test-ns");
    openfga.name = None;
    openfga.generate_name = Some("gen-".to_string());
    openfga.namespace = None;
    assert_eq!(openfga.name_any(), "gen-");
    assert_eq!(openfga.namespace_or_default(), "");
    openfga.generate_name = None;
    assert_eq!(openfga.name_any(), "");
}
