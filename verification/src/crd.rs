//! The resource definition of the `openfga.io` group: server, storage,
//! observability and resource requirements of an instance.

use std::collections::BTreeMap;
use vstd::prelude::*;
use vstd::string::*;

verus! {

/// What an instance of the authorization service shall look like.
#[derive(Debug, Clone)]
pub struct OpenFgaSpec {
    /// The server.
    pub server: OpenFgaServerSpec,
    /// The storage behind it.
    pub storage: StorageSpec,
    /// What the instance reports of itself.
    pub observability: Option<ObservabilitySpec>,
    /// What the instance may use.
    pub resources: Option<ResourceSpec>,
}

/// The server of an instance.
#[derive(Debug, Clone)]
pub struct OpenFgaServerSpec {
    /// The image of the server.
    pub image: String,
    /// When the image is pulled.
    pub image_pull_policy: String,
    /// The number of replicas.
    pub replicas: i32,
    /// Settings handed to the server.
    pub config: Option<BTreeMap<String, String>>,
}

/// The storage of an instance.
#[derive(Debug, Clone)]
pub struct StorageSpec {
    /// The kind of storage: postgres, mysql or memory.
    pub type_: String,
    /// The connection string.
    pub connection: Option<String>,
    /// Settings of this kind of storage.
    pub config: Option<BTreeMap<String, String>>,
}

/// What an instance reports of itself.
#[derive(Debug, Clone)]
pub struct ObservabilitySpec {
    /// Whether metrics are served.
    pub metrics: bool,
    /// Whether traces are sent.
    pub tracing: bool,
    /// Where traces are sent.
    pub opentelemetry: Option<OpenTelemetrySpec>,
}

/// Where traces are sent.
#[derive(Debug, Clone)]
pub struct OpenTelemetrySpec {
    /// The OTLP endpoint.
    pub endpoint: String,
    /// Headers sent along.
    pub headers: Option<BTreeMap<String, String>>,
}

/// What an instance may use.
#[derive(Debug, Clone)]
pub struct ResourceSpec {
    pub cpu_request: Option<String>,
    pub memory_request: Option<String>,
    pub cpu_limit: Option<String>,
    pub memory_limit: Option<String>,
}

/// What is reported of an instance.
#[derive(Debug, Clone)]
pub struct OpenFgaStatus {
    /// The phase that the instance is in.
    pub phase: Option<String>,
    /// What the phase means, in words.
    pub message: Option<String>,
    /// The number of replicas that are ready.
    pub ready_replicas: Option<i32>,
    /// The conditions of the instance.
    pub conditions: Option<Vec<OpenFgaCondition>>,
}

/// One condition of an instance.
#[derive(Debug, Clone)]
pub struct OpenFgaCondition {
    /// The kind of condition.
    pub type_: String,
    /// Whether it holds.
    pub status: String,
    /// When it last changed.
    pub last_transition_time: Option<String>,
    /// Why it changed.
    pub reason: Option<String>,
    /// What it means, in words.
    pub message: Option<String>,
}

/// The pull policy of a server that names none.
pub fn default_image_pull_policy() -> (policy: String)
    ensures
        policy@ == "IfNotPresent"@,
{
    "IfNotPresent".to_string()
}

/// The number of replicas of a server that names none.
pub fn default_replicas() -> (replicas: i32)
    ensures
        replicas == 1,
{
    1
}

} // verus!
