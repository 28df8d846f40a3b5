//! The health of the operator: what it reports of itself, what the health
//! endpoints answer, and how the start-up proceeds while the cluster cannot be
//! reached.

use crate::text::{decimal, decimal_text};
use vstd::prelude::*;
use vstd::string::*;

verus! {

/// What the operator knows of its own state.
#[derive(Debug, Clone)]
pub struct HealthStatus {
    pub status: String,
    pub kubernetes_connected: bool,
    pub controller_running: bool,
    pub uptime_seconds: u64,
}

/// The mathematical value of a [`HealthStatus`].
pub struct HealthModel {
    pub status: Seq<char>,
    pub kubernetes_connected: bool,
    pub controller_running: bool,
    pub uptime_seconds: nat,
}

impl View for HealthStatus {
    type V = HealthModel;

    open spec fn view(&self) -> HealthModel {
        HealthModel {
            status: self.status@,
            kubernetes_connected: self.kubernetes_connected,
            controller_running: self.controller_running,
            uptime_seconds: self.uptime_seconds as nat,
        }
    }
}

impl Default for HealthStatus {
    /// The state of an operator that has just started.
    fn default() -> (status: HealthStatus)
        ensures
            status@ == (HealthModel {
                status: "initializing"@,
                kubernetes_connected: false,
                controller_running: false,
                uptime_seconds: 0,
            }),
    {
        HealthStatus {
            status: "initializing".to_string(),
            kubernetes_connected: false,
            controller_running: false,
            uptime_seconds: 0,
        }
    }
}

/// How the controller stopped.
#[derive(Debug, Clone, Copy, PartialEq, Eq, Structural)]
pub enum ControllerExit {
    /// It ran to its end.
    Completed,
    /// It ended with an error.
    Failed,
    /// The operator was told to stop.
    Interrupted,
}

/// The state after the controller stopped in the way `exit`.
pub open spec fn stopped_spec(before: HealthModel, exit: ControllerExit) -> HealthModel {
    match exit {
        ControllerExit::Completed => HealthModel { controller_running: false, ..before },
        ControllerExit::Failed => HealthModel {
            status: "controller_failed"@,
            controller_running: false,
            ..before
        },
        ControllerExit::Interrupted => HealthModel {
            status: "shutting_down"@,
            controller_running: false,
            ..before
        },
    }
}

impl HealthStatus {
    /// Records the time for which the operator has been up.
    pub fn set_uptime(&mut self, seconds: u64)
        ensures
            final(self)@ == (HealthModel { uptime_seconds: seconds as nat, ..old(self)@ }),
    {
        self.uptime_seconds = seconds;
    }

    /// Records that the cluster was reached.
    pub fn connected(&mut self)
        ensures
            final(self)@ == (HealthModel {
                status: "running"@,
                kubernetes_connected: true,
                ..old(self)@
            }),
    {
        self.status = "running".to_string();
        self.kubernetes_connected = true;
    }

    /// Records that the controller was started.
    pub fn controller_started(&mut self)
        ensures
            final(self)@ == (HealthModel { controller_running: true, ..old(self)@ }),
    {
        self.controller_running = true;
    }

    /// Records that the controller stopped in the way `exit`.
    pub fn controller_stopped(&mut self, exit: ControllerExit)
        ensures
            final(self)@ == stopped_spec(old(self)@, exit),
    {
        match exit {
            ControllerExit::Completed => {},
            ControllerExit::Failed => {
                self.status = "controller_failed".to_string();
            },
            ControllerExit::Interrupted => {
                self.status = "shutting_down".to_string();
            },
        }
        self.controller_running = false;
    }
}

/// What a health endpoint sends back.
#[derive(Debug, Clone, Copy, PartialEq, Eq, Structural)]
pub enum HealthBody {
    /// The state of the operator as a JSON object, with the version and the
    /// time of the answer.
    Report,
    /// The text `ready`.
    Ready,
    /// The text `not ready`.
    NotReady,
    /// The text `alive`.
    Alive,
    /// The text `Not Found`.
    NotFound,
}

/// The kind of content that a health endpoint sends back.
#[derive(Debug, Clone, Copy, PartialEq, Eq, Structural)]
pub enum ContentType {
    /// `application/json`
    Json,
    /// `text/plain`
    PlainText,
}

/// The answer of a health endpoint: the HTTP status code, the content type
/// where one is set, and the body.
#[derive(Debug, Clone, Copy, PartialEq, Eq, Structural)]
pub struct HealthReply {
    pub status_code: u16,
    pub content_type: Option<ContentType>,
    pub body: HealthBody,
}

/// The HTTP status code of a positive and of a negative answer.
pub open spec fn code_for(ok: bool) -> u16 {
    if ok {
        200
    } else {
        503
    }
}

/// The answer to a request for `path`.
///
/// `/health` and `/healthz` report the state and are positive when the
/// cluster is reached and the controller runs. `/ready` and `/readiness` are
/// positive when the cluster is reached. `/live` and `/liveness` are always
/// positive. Every other path is not found.
pub open spec fn reply_spec(path: Seq<char>, status: HealthModel) -> HealthReply {
    if path == "/health"@ || path == "/healthz"@ {
        HealthReply {
            status_code: code_for(status.kubernetes_connected && status.controller_running),
            content_type: Some(ContentType::Json),
            body: HealthBody::Report,
        }
    } else if path == "/ready"@ || path == "/readiness"@ {
        HealthReply {
            status_code: code_for(status.kubernetes_connected),
            content_type: Some(ContentType::PlainText),
            body: if status.kubernetes_connected {
                HealthBody::Ready
            } else {
                HealthBody::NotReady
            },
        }
    } else if path == "/live"@ || path == "/liveness"@ {
        HealthReply {
            status_code: 200,
            content_type: Some(ContentType::PlainText),
            body: HealthBody::Alive,
        }
    } else {
        HealthReply { status_code: 404, content_type: None, body: HealthBody::NotFound }
    }
}

impl HealthBody {
    /// The text of a body that is a fixed text.
    pub open spec fn text_spec(self) -> Option<Seq<char>> {
        match self {
            HealthBody::Report => None,
            HealthBody::Ready => Some("ready"@),
            HealthBody::NotReady => Some("not ready"@),
            HealthBody::Alive => Some("alive"@),
            HealthBody::NotFound => Some("Not Found"@),
        }
    }

    /// The text of the body; `None` for the report, which the caller writes
    /// from the state.
    pub fn text(&self) -> (t: Option<String>)
        ensures
            match t {
                Some(s) => self.text_spec() == Some(s@),
                None => self.text_spec() is None,
            },
    {
        match self {
            HealthBody::Report => None,
            HealthBody::Ready => Some("ready".to_string()),
            HealthBody::NotReady => Some("not ready".to_string()),
            HealthBody::Alive => Some("alive".to_string()),
            HealthBody::NotFound => Some("Not Found".to_string()),
        }
    }
}

impl ContentType {
    /// The value of the `content-type` header.
    pub open spec fn header_spec(self) -> Seq<char> {
        match self {
            ContentType::Json => "application/json"@,
            ContentType::PlainText => "text/plain"@,
        }
    }

    /// The value of the `content-type` header.
    pub fn header(&self) -> (h: String)
        ensures
            h@ == self.header_spec(),
    {
        match self {
            ContentType::Json => "application/json".to_string(),
            ContentType::PlainText => "text/plain".to_string(),
        }
    }
}

fn is_path(path: &String, expected: &str) -> (same: bool)
    ensures
        same == (path@ == expected@),
{
    *path == expected.to_string()
}

/// Answers a request to a health endpoint from the state of the operator.
pub fn handle_health_request(path: &str, status: &HealthStatus) -> (reply: HealthReply)
    ensures
        reply == reply_spec(path@, status@),
{
    let path = path.to_string();
    if is_path(&path, "/health") || is_path(&path, "/healthz") {
        let healthy = status.kubernetes_connected && status.controller_running;
        HealthReply {
            status_code: if healthy {
                200
            } else {
                503
            },
            content_type: Some(ContentType::Json),
            body: HealthBody::Report,
        }
    } else if is_path(&path, "/ready") || is_path(&path, "/readiness") {
        let ready = status.kubernetes_connected;
        HealthReply {
            status_code: if ready {
                200
            } else {
                503
            },
            content_type: Some(ContentType::PlainText),
            body: if ready {
                HealthBody::Ready
            } else {
                HealthBody::NotReady
            },
        }
    } else if is_path(&path, "/live") || is_path(&path, "/liveness") {
        HealthReply {
            status_code: 200,
            content_type: Some(ContentType::PlainText),
            body: HealthBody::Alive,
        }
    } else {
        HealthReply { status_code: 404, content_type: None, body: HealthBody::NotFound }
    }
}

/// The number of attempts to reach the cluster after which the operator gives
/// up.
pub const MAX_RETRY_ATTEMPTS: u32 = 10;

/// The seconds to wait after the first failed attempt.
pub const BASE_DELAY_SECS: u64 = 5;

/// The longest wait between two attempts, in seconds.
pub const MAX_DELAY_SECS: u64 = 300;

/// Two to the power of `n`.
pub open spec fn power_of_two(n: nat) -> nat
    decreases n,
{
    if n == 0 {
        1
    } else {
        2 * power_of_two((n - 1) as nat)
    }
}

/// The seconds to wait after the failed attempt number `attempt`, counted
/// from one: the base delay doubled with each further attempt, and never more
/// than the longest wait.
pub open spec fn retry_delay_spec(attempt: nat) -> nat {
    let doubled = BASE_DELAY_SECS as nat * power_of_two((attempt - 1) as nat);
    if doubled < MAX_DELAY_SECS as nat {
        doubled
    } else {
        MAX_DELAY_SECS as nat
    }
}

/// Powers of two grow with the exponent.
pub proof fn lemma_power_of_two_grows(a: nat, b: nat)
    requires
        a <= b,
    ensures
        power_of_two(a) <= power_of_two(b),
        power_of_two(a) >= 1,
    decreases b,
{
    if a < b {
        lemma_power_of_two_grows(a, (b - 1) as nat);
    } else if a > 0 {
        lemma_power_of_two_grows((a - 1) as nat, (a - 1) as nat);
    }
}

/// The seconds to wait after the failed attempt number `attempt`.
pub fn retry_delay_secs(attempt: u32) -> (secs: u64)
    requires
        attempt >= 1,
    ensures
        secs == retry_delay_spec(attempt as nat),
        BASE_DELAY_SECS <= secs <= MAX_DELAY_SECS,
{
    let mut delay: u64 = BASE_DELAY_SECS;
    let mut doubled: u32 = 0;
    proof {
        lemma_power_of_two_grows(0, (attempt - 1) as nat);
    }
    while doubled < attempt - 1 && delay < MAX_DELAY_SECS
        invariant
            attempt >= 1,
            doubled <= attempt - 1,
            delay == BASE_DELAY_SECS as nat * power_of_two(doubled as nat),
            delay < 2 * MAX_DELAY_SECS,
            delay >= BASE_DELAY_SECS,
        decreases attempt - 1 - doubled,
    {
        proof {
            lemma_power_of_two_grows(doubled as nat, doubled as nat);
        }
        delay = delay * 2;
        doubled = doubled + 1;
    }
    proof {
        lemma_power_of_two_grows(doubled as nat, (attempt - 1) as nat);
        assert(BASE_DELAY_SECS as nat * power_of_two(doubled as nat) <= BASE_DELAY_SECS as nat
            * power_of_two((attempt - 1) as nat)) by (nonlinear_arith)
            requires
                power_of_two(doubled as nat) <= power_of_two((attempt - 1) as nat),
        ;
    }
    if delay < MAX_DELAY_SECS {
        delay
    } else {
        MAX_DELAY_SECS
    }
}

/// What the operator does after an attempt to reach the cluster.
#[derive(Debug, Clone, Copy, PartialEq, Eq, Structural)]
pub enum StartupAction {
    /// The cluster was reached: run the controller.
    RunController,
    /// Wait for so many seconds, then try again.
    RetryAfter(u64),
    /// The attempts are used up: end with the error of the last one.
    GiveUp,
}

/// The text of the state while the operator retries.
pub open spec fn retrying_text(attempt: nat) -> Seq<char> {
    "retrying (attempt "@ + decimal(attempt) + ")"@
}

/// The state, the count of failed attempts and the action after an attempt
/// to reach the cluster that `failed_before` failed attempts went before.
///
/// A success marks the operator as running and connected. A failure counts;
/// the last of the attempts that are allowed marks the operator as failed,
/// every other one makes it wait.
pub open spec fn attempt_spec(before: HealthModel, failed_before: nat, reached: bool) -> (
    HealthModel,
    nat,
    StartupAction,
) {
    if reached {
        (
            HealthModel { status: "running"@, kubernetes_connected: true, ..before },
            failed_before,
            StartupAction::RunController,
        )
    } else {
        let failed = failed_before + 1;
        if failed >= MAX_RETRY_ATTEMPTS {
            (
                HealthModel { status: "failed"@, kubernetes_connected: false, ..before },
                failed,
                StartupAction::GiveUp,
            )
        } else {
            (
                HealthModel {
                    status: retrying_text(failed),
                    kubernetes_connected: false,
                    ..before
                },
                failed,
                StartupAction::RetryAfter(retry_delay_spec(failed) as u64),
            )
        }
    }
}

/// Takes note of an attempt to reach the cluster: updates the state and the
/// count of failed attempts, and says what to do next.
pub fn initialize_operator_with_retry(
    status: &mut HealthStatus,
    retry_count: &mut u32,
    reached: bool,
) -> (action: StartupAction)
    requires
        *old(retry_count) < u32::MAX,
    ensures
        (final(status)@, *final(retry_count) as nat, action) == attempt_spec(
            old(status)@,
            *old(retry_count) as nat,
            reached,
        ),
{
    if reached {
        status.connected();
        StartupAction::RunController
    } else {
        *retry_count = *retry_count + 1;
        status.kubernetes_connected = false;
        if *retry_count >= MAX_RETRY_ATTEMPTS {
            status.status = "failed".to_string();
            StartupAction::GiveUp
        } else {
            status.status = String::from_str("retrying (attempt ").concat(
                decimal_text(*retry_count as u64).as_str(),
            ).concat(")");
            StartupAction::RetryAfter(retry_delay_secs(*retry_count))
        }
    }
}

/// The operator gives up at the tenth failed attempt and at no earlier one.
pub proof fn law_gives_up_at_the_limit(before: HealthModel, failed_before: nat)
    ensures
        attempt_spec(before, failed_before, false).2 == StartupAction::GiveUp <==> failed_before
            + 1 >= MAX_RETRY_ATTEMPTS,
{
}

/// The wait never shrinks from one failed attempt to the next.
pub proof fn law_retry_delay_grows(a: nat, b: nat)
    requires
        1 <= a <= b,
    ensures
        retry_delay_spec(a) <= retry_delay_spec(b),
{
    lemma_power_of_two_grows((a - 1) as nat, (b - 1) as nat);
    assert(BASE_DELAY_SECS as nat * power_of_two((a - 1) as nat) <= BASE_DELAY_SECS as nat
        * power_of_two((b - 1) as nat)) by (nonlinear_arith)
        requires
            power_of_two((a - 1) as nat) <= power_of_two((b - 1) as nat),
    ;
}

} // verus!
