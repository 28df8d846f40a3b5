use openfga_operator::health::{
    handle_health_request, initialize_operator_with_retry, retry_delay_secs, ContentType,
    ControllerExit, HealthBody, HealthStatus, StartupAction,
};
use openfga_operator::text::decimal_text;

fn status(connected: bool, running: bool) -> HealthStatus {
    HealthStatus {
        status: "running".to_string(),
        kubernetes_connected: connected,
        controller_running: running,
        uptime_seconds: 12,
    }
}

#[test]
fn health_status_starts_as_initializing() {
    let s = HealthStatus::default();
    assert_eq!(s.status, "initializing");
    assert!(!s.kubernetes_connected);
    assert!(!s.controller_running);
    assert_eq!(s.uptime_seconds, 0);
}

#[test]
fn health_is_positive_only_when_connected_and_running() {
    for path in ["/health", "/healthz"] {
        let reply = handle_health_request(path, &status(true, true));
        assert_eq!(reply.status_code, 200);
        assert_eq!(reply.content_type, Some(ContentType::Json));
        assert_eq!(reply.body, HealthBody::Report);
        assert_eq!(handle_health_request(path, &status(true, false)).status_code, 503);
        assert_eq!(handle_health_request(path, &status(false, true)).status_code, 503);
        assert_eq!(handle_health_request(path, &status(false, false)).status_code, 503);
    }
}

#[test]
fn readiness_follows_the_connection() {
    for path in ["/ready", "/readiness"] {
        let reply = handle_health_request(path, &status(true, false));
        assert_eq!(reply.status_code, 200);
        assert_eq!(reply.content_type, Some(ContentType::PlainText));
        assert_eq!(reply.body.text(), Some("ready".to_string()));
        let reply = handle_health_request(path, &status(false, true));
        assert_eq!(reply.status_code, 503);
        assert_eq!(reply.body.text(), Some("not ready".to_string()));
    }
}

#[test]
fn liveness_is_always_positive() {
    for path in ["/live", "/liveness"] {
        let reply = handle_health_request(path, &status(false, false));
        assert_eq!(reply.status_code, 200);
        assert_eq!(reply.content_type.map(|c| c.header()), Some("text/plain".to_string()));
        assert_eq!(reply.body.text(), Some("alive".to_string()));
    }
}

#[test]
fn other_paths_are_not_found() {
    for path in ["/", "", "/health/", "/Health", "/metrics"] {
        let reply = handle_health_request(path, &status(true, true));
        assert_eq!(reply.status_code, 404);
        assert_eq!(reply.content_type, None);
        assert_eq!(reply.body.text(), Some("Not Found".to_string()));
    }
    assert_eq!(HealthBody::Report.text(), None);
    assert_eq!(ContentType::Json.header(), "application/json");
}

#[test]
fn retry_delay_doubles_up_to_five_minutes() {
    let delays: Vec<u64> = (1..=9).map(retry_delay_secs).collect();
    assert_eq!(delays, vec![5, 10, 20, 40, 80, 160, 300, 300, 300]);
    assert_eq!(retry_delay_secs(u32::MAX), 300);
}

#[test]
fn startup_retries_until_the_tenth_failure() {
    let mut health = HealthStatus::default();
    let mut failures: u32 = 0;
    let expected = [5, 10, 20, 40, 80, 160, 300, 300, 300];
    for (i, delay) in expected.iter().enumerate() {
        let action = initialize_operator_with_retry(&mut health, &mut failures, false);
        assert_eq!(action, StartupAction::RetryAfter(*delay));
        assert_eq!(failures, i as u32 + 1);
        assert_eq!(health.status, format!("retrying (attempt {})", i + 1));
        assert!(!health.kubernetes_connected);
    }
    let action = initialize_operator_with_retry(&mut health, &mut failures, false);
    assert_eq!(action, StartupAction::GiveUp);
    assert_eq!(failures, 10);
    assert_eq!(health.status, "failed");
}

#[test]
fn startup_runs_the_controller_once_connected() {
    let mut health = HealthStatus::default();
    let mut failures: u32 = 3;
    let action = initialize_operator_with_retry(&mut health, &mut failures, true);
    assert_eq!(action, StartupAction::RunController);
    assert_eq!(failures, 3);
    assert_eq!(health.status, "running");
    assert!(health.kubernetes_connected);
    assert!(!health.controller_running);
}

#[test]
fn controller_exit_is_recorded() {
    let mut health = status(true, false);
    health.controller_started();
    assert!(health.controller_running);
    health.set_uptime(77);
    assert_eq!(health.uptime_seconds, 77);

    let mut completed = health.clone();
    completed.controller_stopped(ControllerExit::Completed);
    assert!(!completed.controller_running);
    assert_eq!(completed.status, "running");

    let mut failed = health.clone();
    failed.controller_stopped(ControllerExit::Failed);
    assert!(!failed.controller_running);
    assert_eq!(failed.status, "controller_failed");

    let mut interrupted = health.clone();
    interrupted.controller_stopped(ControllerExit::Interrupted);
    assert!(!interrupted.controller_running);
    assert_eq!(interrupted.status, "shutting_down");
    assert!(interrupted.kubernetes_connected);
}

#[test]
fn numbers_are_written_in_decimal() {
    assert_eq!(decimal_text(0), "0");
    assert_eq!(decimal_text(7), "7");
    assert_eq!(decimal_text(10), "10");
    assert_eq!(decimal_text(1234567890), "1234567890");
    assert_eq!(decimal_text(u64::MAX), "18446744073709551615");
}
