use std::path::PathBuf;
use std::time::Duration;

use alternate_tonic_client::{GrpcConnector, GrpcConnectorBuilder, TcpConfig, Transport};

#[test]
fn builder_without_timeout_builds_connector_without_timeout() {
    let connector: GrpcConnector<(), ()> = GrpcConnectorBuilder::new().build_to_vsock_socket(3, 50051);
    assert_eq!(connector.timeout, None);
    assert!(matches!(connector.transport, Transport::Vsock(3, 50051)));
}

#[test]
fn builder_timeout_reaches_connector() {
    let connector: GrpcConnector<(), ()> = GrpcConnectorBuilder::new()
        .timeout(Duration::from_secs(5))
        .build_to_vsock_socket(7, 1024);
    assert_eq!(connector.timeout, Some(Duration::from_secs(5)));
}

#[test]
fn last_timeout_set_wins() {
    let connector: GrpcConnector<(), ()> = GrpcConnectorBuilder::new()
        .timeout(Duration::from_secs(5))
        .timeout(Duration::from_millis(250))
        .build_to_vsock_socket(7, 1024);
    assert_eq!(connector.timeout, Some(Duration::from_millis(250)));
}

#[test]
fn unix_socket_connector_holds_the_path() {
    let connector: GrpcConnector<(), ()> = GrpcConnectorBuilder::new().build_to_unix_socket(PathBuf::from("/tmp/grpc.sock"));
    match &connector.transport {
        Transport::Unix(path) => assert_eq!(path.as_ref(), &PathBuf::from("/tmp/grpc.sock")),
        _ => panic!("expected a Unix transport"),
    }
    assert_eq!(connector.timeout, None);
}

#[test]
fn custom_connector_holds_the_service() {
    let connector: GrpcConnector<(), u32> = GrpcConnectorBuilder::new()
        .timeout(Duration::from_secs(1))
        .build_custom(42u32);
    assert!(matches!(connector.transport, Transport::Custom(42)));
    assert_eq!(connector.timeout, Some(Duration::from_secs(1)));
}

#[test]
fn tcp_connector_holds_the_uri() {
    let uri: http::Uri = "http://example.com:50051".parse().unwrap();
    let connector: GrpcConnector<(), ()> =
        GrpcConnectorBuilder::new().build_to_tcp_host(uri.clone(), (), TcpConfig::default());
    match &connector.transport {
        Transport::DnsTcp(u, _) => assert_eq!(u, &uri),
        _ => panic!("expected a DNS TCP transport"),
    }
}

#[test]
fn only_unix_and_vsock_are_ready_without_polling() {
    let vsock: GrpcConnector<(), ()> = GrpcConnectorBuilder::new().build_to_vsock_socket(1, 2);
    let unix: GrpcConnector<(), ()> = GrpcConnectorBuilder::new().build_to_unix_socket(PathBuf::from("/run/app.sock"));
    let custom: GrpcConnector<(), ()> = GrpcConnectorBuilder::new().build_custom(());
    let tcp: GrpcConnector<(), ()> = GrpcConnectorBuilder::new().build_to_tcp_host(
        "http://example.com".parse().unwrap(),
        (),
        TcpConfig::default(),
    );
    assert!(vsock.transport.ready_without_polling());
    assert!(unix.transport.ready_without_polling());
    assert!(!custom.transport.ready_without_polling());
    assert!(!tcp.transport.ready_without_polling());
}
