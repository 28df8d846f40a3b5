use openfga_operator::types::{DatastoreConfig, GrpcConfig, HttpConfig, PlaygroundConfig};

#[test]
fn test_default_values() {
    let datastore = DatastoreConfig::default();
    assert_eq!(datastore.engine, "memory");
    assert_eq!(datastore.uri, None);

    let playground = PlaygroundConfig::default();
    assert_eq!(playground.enabled, false);
    assert_eq!(playground.port, 3000);

    let grpc = GrpcConfig::default();
    assert_eq!(grpc.port, 8081);

    let http = HttpConfig::default();
    assert_eq!(http.port, 8080);
}
