//! The decisions of the controller: what a deployment and a service of the
//! authorization service look like, how a reconciliation proceeds from one
//! answer of the cluster to the next request, and how long to wait after an
//! error. The requests themselves are made by the caller.

use crate::text::{has_fragment, occurs_in, views};
use crate::types::{OpenFGA, OpenFGASpec, OpenFGAStatus, SpecModel, StatusModel};
use vstd::prelude::*;
use vstd::string::*;

verus! {

/// What went wrong in a reconciliation, with the message of the failure.
#[derive(Debug, Clone)]
pub enum ControllerError {
    /// The cluster refused or failed a request.
    Kube(String),
    /// A value could not be written or read as JSON.
    Serialization(String),
}

/// The mathematical value of a [`ControllerError`].
pub enum ErrorModel {
    Kube(Seq<char>),
    Serialization(Seq<char>),
}

impl View for ControllerError {
    type V = ErrorModel;

    open spec fn view(&self) -> ErrorModel {
        match self {
            ControllerError::Kube(message) => ErrorModel::Kube(message@),
            ControllerError::Serialization(message) => ErrorModel::Serialization(message@),
        }
    }
}

/// The result of a step of the controller.
pub type ControllerResult<T> = Result<T, ControllerError>;

/// What the controller asks of its runtime when a reconciliation ends: to
/// come back after so many seconds.
#[derive(Debug, Clone, Copy, PartialEq, Eq, Structural)]
pub struct Action {
    pub requeue_after_secs: u64,
}

/// How long the controller waits after a successful reconciliation.
pub const REQUEUE_AFTER_SUCCESS_SECS: u64 = 60;

impl ControllerError {
    /// The text of the error.
    pub open spec fn message_spec(self) -> Seq<char> {
        match self {
            ControllerError::Kube(message) => "Kubernetes API error: "@ + message@,
            ControllerError::Serialization(message) => "Serialization error: "@ + message@,
        }
    }

    /// The text of the error.
    pub fn message(&self) -> (text: String)
        ensures
            text@ == self.message_spec(),
    {
        match self {
            ControllerError::Kube(message) => String::from_str("Kubernetes API error: ").concat(
                message.as_str(),
            ),
            ControllerError::Serialization(message) => String::from_str(
                "Serialization error: ",
            ).concat(message.as_str()),
        }
    }

    /// An owned copy of the error.
    pub fn duplicate(&self) -> (e: ControllerError)
        ensures
            e@ == self@,
    {
        match self {
            ControllerError::Kube(message) => ControllerError::Kube(message.clone()),
            ControllerError::Serialization(message) => ControllerError::Serialization(
                message.clone(),
            ),
        }
    }
}

/// The seconds to wait after a failure of the cluster with this message. The
/// first of these that the message names decides: a missing resource, a
/// conflict, a lack of permission, a rate limit, a network failure.
pub open spec fn kube_backoff_secs(message: Seq<char>) -> nat {
    if occurs_in("NotFound"@, message) {
        5
    } else if occurs_in("Conflict"@, message) {
        1
    } else if occurs_in("Forbidden"@, message) || occurs_in("Unauthorized"@, message) {
        300
    } else if occurs_in("TooManyRequests"@, message) || occurs_in("throttled"@, message) {
        60
    } else {
        30
    }
}

/// The seconds to wait after an error.
pub open spec fn backoff_secs(error: ControllerError) -> nat {
    match error {
        ControllerError::Kube(message) => kube_backoff_secs(message@),
        ControllerError::Serialization(_) => 120,
    }
}

/// Decides when to try again after a failed reconciliation: soon after a
/// missing resource or a conflict, late after a lack of permission.
pub fn error_policy(error: &ControllerError) -> (action: Action)
    ensures
        action.requeue_after_secs == backoff_secs(*error),
{
    let secs: u64 = match error {
        ControllerError::Kube(message) => {
            let text = message.as_str();
            if has_fragment(text, "NotFound") {
                5
            } else if has_fragment(text, "Conflict") {
                1
            } else if has_fragment(text, "Forbidden") || has_fragment(text, "Unauthorized") {
                300
            } else if has_fragment(text, "TooManyRequests") || has_fragment(text, "throttled") {
                60
            } else {
                30
            }
        },
        ControllerError::Serialization(_) => 120,
    };
    Action { requeue_after_secs: secs }
}

/// A label of a cluster object.
#[derive(Debug, Clone)]
pub struct Label {
    pub key: String,
    pub value: String,
}

/// The mathematical value of a [`Label`].
pub struct LabelModel {
    pub key: Seq<char>,
    pub value: Seq<char>,
}

impl View for Label {
    type V = LabelModel;

    open spec fn view(&self) -> LabelModel {
        LabelModel { key: self.key@, value: self.value@ }
    }
}

/// A named port of a container or of a service. A service hands the traffic
/// of a port on to the same port of the container.
#[derive(Debug, Clone)]
pub struct PortPlan {
    pub name: String,
    pub port: i32,
    pub protocol: String,
}

/// The mathematical value of a [`PortPlan`].
pub struct PortModel {
    pub name: Seq<char>,
    pub port: int,
    pub protocol: Seq<char>,
}

impl View for PortPlan {
    type V = PortModel;

    open spec fn view(&self) -> PortModel {
        PortModel { name: self.name@, port: self.port as int, protocol: self.protocol@ }
    }
}

/// The deployment that runs the service: one container of the given image
/// with its ports, selected by the labels.
#[derive(Debug, Clone)]
pub struct DeploymentPlan {
    pub name: String,
    pub namespace: String,
    pub labels: Vec<Label>,
    pub replicas: i32,
    pub container_name: String,
    pub image: String,
    pub ports: Vec<PortPlan>,
}

/// The mathematical value of a [`DeploymentPlan`].
pub struct DeploymentModel {
    pub name: Seq<char>,
    pub namespace: Seq<char>,
    pub labels: Seq<LabelModel>,
    pub replicas: int,
    pub container_name: Seq<char>,
    pub image: Seq<char>,
    pub ports: Seq<PortModel>,
}

impl View for DeploymentPlan {
    type V = DeploymentModel;

    open spec fn view(&self) -> DeploymentModel {
        DeploymentModel {
            name: self.name@,
            namespace: self.namespace@,
            labels: views(self.labels@),
            replicas: self.replicas as int,
            container_name: self.container_name@,
            image: self.image@,
            ports: views(self.ports@),
        }
    }
}

/// The service in front of the deployment: the ports of the container,
/// reached inside the cluster, routed by the labels.
#[derive(Debug, Clone)]
pub struct ServicePlan {
    pub name: String,
    pub namespace: String,
    pub labels: Vec<Label>,
    pub ports: Vec<PortPlan>,
    pub service_type: String,
}

/// The mathematical value of a [`ServicePlan`].
pub struct ServiceModel {
    pub name: Seq<char>,
    pub namespace: Seq<char>,
    pub labels: Seq<LabelModel>,
    pub ports: Seq<PortModel>,
    pub service_type: Seq<char>,
}

impl View for ServicePlan {
    type V = ServiceModel;

    open spec fn view(&self) -> ServiceModel {
        ServiceModel {
            name: self.name@,
            namespace: self.namespace@,
            labels: views(self.labels@),
            ports: views(self.ports@),
            service_type: self.service_type@,
        }
    }
}

/// The labels of everything that belongs to the instance `name`.
pub open spec fn instance_labels(name: Seq<char>) -> Seq<LabelModel> {
    seq![
        LabelModel { key: "app"@, value: "openfga"@ },
        LabelModel { key: "instance"@, value: name },
    ]
}

/// A TCP port.
pub open spec fn tcp_port(name: Seq<char>, port: int) -> PortModel {
    PortModel { name: name, port: port, protocol: "TCP"@ }
}

/// The ports that an instance serves: gRPC, HTTP, and the playground where it
/// is enabled.
pub open spec fn service_ports(spec: SpecModel) -> Seq<PortModel> {
    let ports = seq![tcp_port("grpc"@, spec.grpc.port as int), tcp_port("http"@, spec.http.port as int)];
    if spec.playground.enabled {
        ports.push(tcp_port("playground"@, spec.playground.port as int))
    } else {
        ports
    }
}

/// The deployment of the instance `name` in the namespace `ns`.
pub open spec fn deployment_spec(spec: SpecModel, ns: Seq<char>, name: Seq<char>) -> DeploymentModel {
    DeploymentModel {
        name: name,
        namespace: ns,
        labels: instance_labels(name),
        replicas: spec.replicas,
        container_name: "openfga"@,
        image: spec.image,
        ports: service_ports(spec),
    }
}

/// The service of the instance `name` in the namespace `ns`.
pub open spec fn service_spec(spec: SpecModel, ns: Seq<char>, name: Seq<char>) -> ServiceModel {
    ServiceModel {
        name: name,
        namespace: ns,
        labels: instance_labels(name),
        ports: service_ports(spec),
        service_type: "ClusterIP"@,
    }
}

fn make_labels(name: &str) -> (labels: Vec<Label>)
    ensures
        views(labels@) == instance_labels(name@),
{
    let labels = vec![
        Label { key: "app".to_string(), value: "openfga".to_string() },
        Label { key: "instance".to_string(), value: name.to_string() },
    ];
    assert(views(labels@) =~= instance_labels(name@));
    labels
}

fn make_port(name: &str, port: i32) -> (p: PortPlan)
    ensures
        p@ == tcp_port(name@, port as int),
{
    PortPlan { name: name.to_string(), port, protocol: "TCP".to_string() }
}

fn make_ports(spec: &OpenFGASpec) -> (ports: Vec<PortPlan>)
    ensures
        views(ports@) == service_ports(spec@),
{
    let mut ports = vec![make_port("grpc", spec.grpc.port), make_port("http", spec.http.port)];
    assert(views(ports@) =~= seq![
        tcp_port("grpc"@, spec.grpc.port as int),
        tcp_port("http"@, spec.http.port as int),
    ]);
    if spec.playground.enabled {
        let p = make_port("playground", spec.playground.port);
        ports.push(p);
        assert(views(ports@) =~= service_ports(spec@));
    }
    ports
}

/// Plans the deployment of `openfga` under `name` in the namespace `ns`. It
/// never fails.
pub fn create_deployment(openfga: &OpenFGA, ns: &str, name: &str) -> (plan: ControllerResult<
    DeploymentPlan,
>)
    ensures
        plan matches Ok(p) && p@ == deployment_spec(openfga.spec@, ns@, name@),
{
    Ok(
        DeploymentPlan {
            name: name.to_string(),
            namespace: ns.to_string(),
            labels: make_labels(name),
            replicas: openfga.spec.replicas,
            container_name: "openfga".to_string(),
            image: openfga.spec.image.clone(),
            ports: make_ports(&openfga.spec),
        },
    )
}

/// Plans the service of `openfga` under `name` in the namespace `ns`. It
/// never fails.
pub fn create_service(openfga: &OpenFGA, ns: &str, name: &str) -> (plan: ControllerResult<
    ServicePlan,
>)
    ensures
        plan matches Ok(p) && p@ == service_spec(openfga.spec@, ns@, name@),
{
    Ok(
        ServicePlan {
            name: name.to_string(),
            namespace: ns.to_string(),
            labels: make_labels(name),
            ports: make_ports(&openfga.spec),
            service_type: "ClusterIP".to_string(),
        },
    )
}

/// What was read of a deployment in the cluster: the replicas that it
/// reports. An answer to another request reports none.
#[derive(Debug, Clone, Copy)]
pub struct Observed {
    pub replicas: Option<i32>,
    pub ready_replicas: Option<i32>,
}

/// The answer of the cluster to a request of the controller.
pub type ApiResult = Result<Observed, ControllerError>;

/// The model of an answer of the cluster.
pub open spec fn answer_view(result: ApiResult) -> Result<Observed, ErrorModel> {
    match result {
        Ok(observed) => Ok(observed),
        Err(e) => Err(e@),
    }
}

/// Where a reconciliation stands: the request whose answer it waits for.
#[derive(Debug, Clone, Copy, PartialEq, Eq, Structural)]
pub enum ReconcileState {
    /// The deployment is being looked up.
    AwaitDeployment,
    /// The deployment is being applied.
    AwaitDeploymentPatch,
    /// The service is being looked up.
    AwaitService,
    /// The service is being applied.
    AwaitServicePatch,
    /// The deployment is being read for the status.
    AwaitStatusLookup,
    /// The status is being written.
    AwaitStatusPatch,
}

/// What the caller does next for a reconciliation.
#[derive(Debug)]
pub enum ReconcileAction {
    /// Look up the deployment of the instance.
    GetDeployment,
    /// Apply this deployment.
    ApplyDeployment(DeploymentPlan),
    /// Look up the service of the instance.
    GetService,
    /// Apply this service.
    ApplyService(ServicePlan),
    /// Write this status to the resource.
    PatchStatus(OpenFGAStatus),
    /// End the reconciliation with success.
    Succeed(Action),
    /// End the reconciliation with this error.
    Fail(ControllerError),
}

/// The mathematical value of a [`ReconcileAction`].
pub enum ActionModel {
    GetDeployment,
    ApplyDeployment(DeploymentModel),
    GetService,
    ApplyService(ServiceModel),
    PatchStatus(StatusModel),
    Succeed(Action),
    Fail(ErrorModel),
}

impl View for ReconcileAction {
    type V = ActionModel;

    open spec fn view(&self) -> ActionModel {
        match self {
            ReconcileAction::GetDeployment => ActionModel::GetDeployment,
            ReconcileAction::ApplyDeployment(plan) => ActionModel::ApplyDeployment(plan@),
            ReconcileAction::GetService => ActionModel::GetService,
            ReconcileAction::ApplyService(plan) => ActionModel::ApplyService(plan@),
            ReconcileAction::PatchStatus(status) => ActionModel::PatchStatus(status@),
            ReconcileAction::Succeed(action) => ActionModel::Succeed(*action),
            ReconcileAction::Fail(e) => ActionModel::Fail(e@),
        }
    }
}

/// One step of a reconciliation: what to do, and where the reconciliation
/// stands while it is done. A step without a next state ends it.
#[derive(Debug)]
pub struct ReconcileStep {
    pub next: Option<ReconcileState>,
    pub action: ReconcileAction,
}

/// The mathematical value of a [`ReconcileStep`].
pub struct StepModel {
    pub next: Option<ReconcileState>,
    pub action: ActionModel,
}

impl View for ReconcileStep {
    type V = StepModel;

    open spec fn view(&self) -> StepModel {
        StepModel { next: self.next, action: self.action@ }
    }
}

/// The status that is reported of a deployment with these replicas.
pub open spec fn status_spec(observed: Observed) -> StatusModel {
    StatusModel {
        replicas: observed.replicas,
        ready_replicas: observed.ready_replicas,
        conditions: None,
    }
}

/// The end of a reconciliation that went through.
pub open spec fn success() -> StepModel {
    StepModel {
        next: None,
        action: ActionModel::Succeed(Action { requeue_after_secs: REQUEUE_AFTER_SUCCESS_SECS }),
    }
}

/// The step that follows the answer `result` in the state `state`.
///
/// The deployment and the service are applied whether or not they were found.
/// A failure to apply either ends the reconciliation with that error. The
/// status is written only where the deployment could be read, and a failure
/// on the way to it does not fail the reconciliation.
pub open spec fn step_spec(
    openfga: OpenFGA,
    state: ReconcileState,
    result: Result<Observed, ErrorModel>,
) -> StepModel {
    let ns = openfga.namespace_spec();
    let name = openfga.name_spec();
    match state {
        ReconcileState::AwaitDeployment => StepModel {
            next: Some(ReconcileState::AwaitDeploymentPatch),
            action: ActionModel::ApplyDeployment(deployment_spec(openfga.spec@, ns, name)),
        },
        ReconcileState::AwaitDeploymentPatch => match result {
            Ok(_) => StepModel {
                next: Some(ReconcileState::AwaitService),
                action: ActionModel::GetService,
            },
            Err(e) => StepModel { next: None, action: ActionModel::Fail(e) },
        },
        ReconcileState::AwaitService => StepModel {
            next: Some(ReconcileState::AwaitServicePatch),
            action: ActionModel::ApplyService(service_spec(openfga.spec@, ns, name)),
        },
        ReconcileState::AwaitServicePatch => match result {
            Ok(_) => StepModel {
                next: Some(ReconcileState::AwaitStatusLookup),
                action: ActionModel::GetDeployment,
            },
            Err(e) => StepModel { next: None, action: ActionModel::Fail(e) },
        },
        ReconcileState::AwaitStatusLookup => match result {
            Ok(observed) => StepModel {
                next: Some(ReconcileState::AwaitStatusPatch),
                action: ActionModel::PatchStatus(status_spec(observed)),
            },
            Err(_) => success(),
        },
        ReconcileState::AwaitStatusPatch => success(),
    }
}

/// The number of requests that a reconciliation in this state may still make.
pub open spec fn requests_left(state: ReconcileState) -> nat {
    match state {
        ReconcileState::AwaitDeployment => 5,
        ReconcileState::AwaitDeploymentPatch => 4,
        ReconcileState::AwaitService => 3,
        ReconcileState::AwaitServicePatch => 2,
        ReconcileState::AwaitStatusLookup => 1,
        ReconcileState::AwaitStatusPatch => 0,
    }
}

/// Every step brings a reconciliation closer to its end: it ends after six
/// requests at most.
pub proof fn law_reconciliation_ends(
    openfga: OpenFGA,
    state: ReconcileState,
    result: Result<Observed, ErrorModel>,
)
    ensures
        step_spec(openfga, state, result).next matches Some(next) ==> requests_left(next)
            < requests_left(state),
        step_spec(openfga, state, result).next is None <==> step_spec(
            openfga,
            state,
            result,
        ).action is Succeed || step_spec(openfga, state, result).action is Fail,
{
}

/// A reconciliation fails only where the cluster failed to apply the
/// deployment or the service, and then with the error of the cluster.
pub proof fn law_reconciliation_fails_on_apply_only(
    openfga: OpenFGA,
    state: ReconcileState,
    result: Result<Observed, ErrorModel>,
)
    ensures
        step_spec(openfga, state, result).action matches ActionModel::Fail(e) ==> result == Err::<
            Observed,
            ErrorModel,
        >(e) && (state == ReconcileState::AwaitDeploymentPatch || state
            == ReconcileState::AwaitServicePatch),
{
}

/// The status that the operator reports of a deployment with these replicas:
/// the replicas, and no condition.
pub fn observed_status(observed: &Observed) -> (status: OpenFGAStatus)
    ensures
        status@ == status_spec(*observed),
{
    OpenFGAStatus {
        replicas: observed.replicas,
        ready_replicas: observed.ready_replicas,
        conditions: None,
    }
}

/// The first step of a reconciliation: look up the deployment.
pub fn reconcile_start() -> (step: ReconcileStep)
    ensures
        step@ == (StepModel {
            next: Some(ReconcileState::AwaitDeployment),
            action: ActionModel::GetDeployment,
        }),
{
    ReconcileStep {
        next: Some(ReconcileState::AwaitDeployment),
        action: ReconcileAction::GetDeployment,
    }
}

fn finish() -> (step: ReconcileStep)
    ensures
        step@ == success(),
{
    ReconcileStep {
        next: None,
        action: ReconcileAction::Succeed(Action { requeue_after_secs: REQUEUE_AFTER_SUCCESS_SECS }),
    }
}

/// The step of the reconciliation of `openfga` that follows the answer
/// `result` to the request made in the state `state`.
pub fn reconcile(openfga: &OpenFGA, state: ReconcileState, result: ApiResult) -> (step: ReconcileStep)
    ensures
        step@ == step_spec(*openfga, state, answer_view(result)),
{
    match state {
        ReconcileState::AwaitDeployment => {
            let ns = openfga.namespace_or_default();
            let name = openfga.name_any();
            match create_deployment(openfga, ns.as_str(), name.as_str()) {
                Ok(plan) => ReconcileStep {
                    next: Some(ReconcileState::AwaitDeploymentPatch),
                    action: ReconcileAction::ApplyDeployment(plan),
                },
                Err(e) => ReconcileStep { next: None, action: ReconcileAction::Fail(e) },
            }
        },
        ReconcileState::AwaitDeploymentPatch => match result {
            Ok(_) => ReconcileStep {
                next: Some(ReconcileState::AwaitService),
                action: ReconcileAction::GetService,
            },
            Err(e) => ReconcileStep { next: None, action: ReconcileAction::Fail(e) },
        },
        ReconcileState::AwaitService => {
            let ns = openfga.namespace_or_default();
            let name = openfga.name_any();
            match create_service(openfga, ns.as_str(), name.as_str()) {
                Ok(plan) => ReconcileStep {
                    next: Some(ReconcileState::AwaitServicePatch),
                    action: ReconcileAction::ApplyService(plan),
                },
                Err(e) => ReconcileStep { next: None, action: ReconcileAction::Fail(e) },
            }
        },
        ReconcileState::AwaitServicePatch => match result {
            Ok(_) => ReconcileStep {
                next: Some(ReconcileState::AwaitStatusLookup),
                action: ReconcileAction::GetDeployment,
            },
            Err(e) => ReconcileStep { next: None, action: ReconcileAction::Fail(e) },
        },
        ReconcileState::AwaitStatusLookup => match result {
            Ok(observed) => ReconcileStep {
                next: Some(ReconcileState::AwaitStatusPatch),
                action: ReconcileAction::PatchStatus(observed_status(&observed)),
            },
            Err(_) => finish(),
        },
        ReconcileState::AwaitStatusPatch => finish(),
    }
}

} // verus!
