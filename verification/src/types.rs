//! The specification and the status of a deployed authorization service, as
//! the operator reads and reports them.

use crate::text::views;
use vstd::prelude::*;
use vstd::string::*;

verus! {

/// The model of a text that may be absent.
pub open spec fn text_view(text: Option<String>) -> Option<Seq<char>> {
    match text {
        Some(t) => Some(t@),
        None => None,
    }
}

/// What a deployment of the authorization service shall look like.
#[derive(Debug, Clone)]
pub struct OpenFGASpec {
    pub replicas: i32,
    pub image: String,
    pub datastore: DatastoreConfig,
    pub playground: PlaygroundConfig,
    pub grpc: GrpcConfig,
    pub http: HttpConfig,
}

/// The mathematical value of an [`OpenFGASpec`].
pub struct SpecModel {
    pub replicas: int,
    pub image: Seq<char>,
    pub datastore: DatastoreModel,
    pub playground: PlaygroundConfig,
    pub grpc: GrpcConfig,
    pub http: HttpConfig,
}

impl View for OpenFGASpec {
    type V = SpecModel;

    open spec fn view(&self) -> SpecModel {
        SpecModel {
            replicas: self.replicas as int,
            image: self.image@,
            datastore: self.datastore@,
            playground: self.playground,
            grpc: self.grpc,
            http: self.http,
        }
    }
}

/// The resource that asks for a deployment: its metadata as far as the
/// operator reads them, its specification, and the status last reported.
#[derive(Debug, Clone)]
pub struct OpenFGA {
    pub name: Option<String>,
    pub generate_name: Option<String>,
    pub namespace: Option<String>,
    pub spec: OpenFGASpec,
    pub status: Option<OpenFGAStatus>,
}

impl OpenFGA {
    /// The name by which the resource is addressed: its name, else the prefix
    /// from which its name is generated, else the empty text.
    pub open spec fn name_spec(&self) -> Seq<char> {
        match (self.name, self.generate_name) {
            (Some(name), _) => name@,
            (None, Some(prefix)) => prefix@,
            (None, None) => Seq::empty(),
        }
    }

    /// The namespace of the resource, the empty text where it has none.
    pub open spec fn namespace_spec(&self) -> Seq<char> {
        match self.namespace {
            Some(ns) => ns@,
            None => Seq::empty(),
        }
    }

    /// The name by which the resource is addressed.
    pub fn name_any(&self) -> (name: String)
        ensures
            name@ == self.name_spec(),
    {
        match &self.name {
            Some(name) => name.clone(),
            None => match &self.generate_name {
                Some(prefix) => prefix.clone(),
                None => String::new(),
            },
        }
    }

    /// The namespace of the resource, the empty text where it has none.
    pub fn namespace_or_default(&self) -> (ns: String)
        ensures
            ns@ == self.namespace_spec(),
    {
        match &self.namespace {
            Some(ns) => ns.clone(),
            None => String::new(),
        }
    }
}

/// Where the service keeps its tuples.
#[derive(Debug, Clone)]
pub struct DatastoreConfig {
    pub engine: String,
    pub uri: Option<String>,
}

/// The mathematical value of a [`DatastoreConfig`].
pub struct DatastoreModel {
    pub engine: Seq<char>,
    pub uri: Option<Seq<char>>,
}

impl View for DatastoreConfig {
    type V = DatastoreModel;

    open spec fn view(&self) -> DatastoreModel {
        DatastoreModel { engine: self.engine@, uri: text_view(self.uri) }
    }
}

/// Whether the playground is served, and on which port.
#[derive(Debug, Clone, Copy)]
pub struct PlaygroundConfig {
    pub enabled: bool,
    pub port: i32,
}

/// The port of the gRPC endpoint.
#[derive(Debug, Clone, Copy)]
pub struct GrpcConfig {
    pub port: i32,
}

/// The port of the HTTP endpoint.
#[derive(Debug, Clone, Copy)]
pub struct HttpConfig {
    pub port: i32,
}

/// One condition of a deployed service.
#[derive(Debug, Clone)]
pub struct OpenFGACondition {
    pub type_: String,
    pub status: String,
    pub last_transition_time: Option<String>,
    pub reason: Option<String>,
    pub message: Option<String>,
}

/// The mathematical value of an [`OpenFGACondition`].
pub struct ConditionModel {
    pub type_: Seq<char>,
    pub status: Seq<char>,
    pub last_transition_time: Option<Seq<char>>,
    pub reason: Option<Seq<char>>,
    pub message: Option<Seq<char>>,
}

impl View for OpenFGACondition {
    type V = ConditionModel;

    open spec fn view(&self) -> ConditionModel {
        ConditionModel {
            type_: self.type_@,
            status: self.status@,
            last_transition_time: text_view(self.last_transition_time),
            reason: text_view(self.reason),
            message: text_view(self.message),
        }
    }
}

/// What the operator reports of a deployed service.
#[derive(Debug, Clone)]
pub struct OpenFGAStatus {
    pub replicas: Option<i32>,
    pub ready_replicas: Option<i32>,
    pub conditions: Option<Vec<OpenFGACondition>>,
}

/// The mathematical value of an [`OpenFGAStatus`].
pub struct StatusModel {
    pub replicas: Option<i32>,
    pub ready_replicas: Option<i32>,
    pub conditions: Option<Seq<ConditionModel>>,
}

impl View for OpenFGAStatus {
    type V = StatusModel;

    open spec fn view(&self) -> StatusModel {
        StatusModel {
            replicas: self.replicas,
            ready_replicas: self.ready_replicas,
            conditions: match self.conditions {
                Some(list) => Some(views(list@)),
                None => None,
            },
        }
    }
}

/// The number of replicas of a specification that names none.
pub fn default_replicas() -> (replicas: i32)
    ensures
        replicas == 1,
{
    1
}

/// The image of a specification that names none.
pub fn default_image() -> (image: String)
    ensures
        image@ == "openfga/openfga:latest"@,
{
    "openfga/openfga:latest".to_string()
}

/// The datastore engine of a specification that names none.
pub fn default_engine() -> (engine: String)
    ensures
        engine@ == "memory"@,
{
    "memory".to_string()
}

/// The playground port of a specification that names none.
pub fn default_playground_port() -> (port: i32)
    ensures
        port == 3000,
{
    3000
}

/// The gRPC port of a specification that names none.
pub fn default_grpc_port() -> (port: i32)
    ensures
        port == 8081,
{
    8081
}

/// The HTTP port of a specification that names none.
pub fn default_http_port() -> (port: i32)
    ensures
        port == 8080,
{
    8080
}

impl Default for PlaygroundConfig {
    /// The playground is off; its port is the default one.
    fn default() -> (config: PlaygroundConfig)
        ensures
            config == (PlaygroundConfig { enabled: false, port: 3000 }),
    {
        PlaygroundConfig { enabled: false, port: default_playground_port() }
    }
}

impl Default for GrpcConfig {
    /// The default gRPC port.
    fn default() -> (config: GrpcConfig)
        ensures
            config == (GrpcConfig { port: 8081 }),
    {
        GrpcConfig { port: default_grpc_port() }
    }
}

impl Default for HttpConfig {
    /// The default HTTP port.
    fn default() -> (config: HttpConfig)
        ensures
            config == (HttpConfig { port: 8080 }),
    {
        HttpConfig { port: default_http_port() }
    }
}

impl Default for DatastoreConfig {
    /// The default engine, without a connection string.
    fn default() -> (config: DatastoreConfig)
        ensures
            config@ == (DatastoreModel { engine: "memory"@, uri: None }),
    {
        DatastoreConfig { engine: default_engine(), uri: None }
    }
}

impl Default for OpenFGAStatus {
    /// The status of which nothing is known yet.
    fn default() -> (status: OpenFGAStatus)
        ensures
            status@ == (StatusModel { replicas: None, ready_replicas: None, conditions: None }),
    {
        OpenFGAStatus { replicas: None, ready_replicas: None, conditions: None }
    }
}

} // verus!
