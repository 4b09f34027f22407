use std::sync::Arc;

use hyper_util::client::legacy::connect::dns::GaiResolver;
use tower::Service;
use std::time::Duration;

use alternate_tonic_client::{
    GrpcConnector, GrpcConnectorBuilder, TcpConfig, TcpKeepaliveConfig, TcpLocalAddress, TlsConfig, Transport,
};

fn client_config() -> rustls::ClientConfig {
    rustls::ClientConfig::builder_with_provider(Arc::new(rustls::crypto::ring::default_provider()))
        .with_safe_default_protocol_versions()
        .unwrap()
        .with_root_certificates(rustls::RootCertStore::empty())
        .with_no_client_auth()
}

fn full_tcp_config() -> TcpConfig {
    TcpConfig {
        keepalive: Some(TcpKeepaliveConfig {
            duration: Duration::from_secs(30),
            interval: Duration::from_secs(5),
            retries: 3,
        }),
        nodelay: Some(true),
        send_buffer_size: Some(1 << 16),
        recv_buffer_size: Some(1 << 16),
        local_address: Some(TcpLocalAddress::Both([127, 0, 0, 1], [0; 16])),
        internal_timeout: Some(Duration::from_secs(2)),
        happy_eyeballs_timeout: Some(Duration::from_millis(100)),
        reuse_address: Some(true),
        interface: Some("lo".to_string()),
        user_timeout: Some(Duration::from_secs(10)),
    }
}

#[test]
fn default_tcp_config_sets_nothing() {
    let config = TcpConfig::default();
    assert!(config.keepalive.is_none());
    assert!(config.nodelay.is_none());
    assert!(config.send_buffer_size.is_none());
    assert!(config.recv_buffer_size.is_none());
    assert!(config.local_address.is_none());
    assert!(config.internal_timeout.is_none());
    assert!(config.happy_eyeballs_timeout.is_none());
    assert!(config.reuse_address.is_none());
    assert!(config.interface.is_none());
    assert!(config.user_timeout.is_none());
}

#[test]
fn tcp_config_with_every_setting_builds_a_connector() {
    let connector = full_tcp_config().build_connector(());
    let _inner = connector.into_inner();
}

#[test]
fn tcp_config_with_single_local_addresses_builds_a_connector() {
    for address in [TcpLocalAddress::V4([10, 0, 0, 1]), TcpLocalAddress::V6([0xfe; 16])] {
        let config = TcpConfig { local_address: Some(address), ..TcpConfig::default() };
        let _inner = config.build_connector(()).into_inner();
    }
}

#[test]
fn tls_config_without_alpn_protocols_is_accepted() {
    let tls = TlsConfig::new(client_config(), true);
    assert!(!tls.has_preset_alpn_protocols());
}

#[test]
fn tls_config_with_alpn_protocols_is_flagged() {
    let mut config = client_config();
    config.alpn_protocols = vec![b"h2".to_vec()];
    let tls = TlsConfig::new(config, false);
    assert!(tls.has_preset_alpn_protocols());
}

#[test]
fn tls_connector_is_built_over_tcp() {
    for require_tls in [true, false] {
        let tls = TlsConfig::new(client_config(), require_tls);
        assert!(!tls.has_preset_alpn_protocols());
        let uri: http::Uri = "https://example.com:443".parse().unwrap();
        let connector: GrpcConnector<(), ()> = GrpcConnectorBuilder::new()
            .timeout(Duration::from_secs(3))
            .build_to_tcp_host_with_tls(uri.clone(), (), full_tcp_config(), tls);
        assert_eq!(connector.timeout, Some(Duration::from_secs(3)));
        match connector.transport {
            Transport::DnsTcpTls(u, c) => {
                assert_eq!(u, uri);
                let _inner = c.into_inner();
            }
            _ => panic!("expected a DNS TCP TLS transport"),
        }
    }
}

fn connect_error<S>(mut connector: S, uri: &str) -> String
where
    S: Service<http::Uri>,
    S::Error: std::fmt::Display,
{
    let runtime = tokio::runtime::Builder::new_current_thread().enable_all().build().unwrap();
    let uri: http::Uri = uri.parse().unwrap();
    match runtime.block_on(connector.call(uri)) {
        Ok(_) => "connected".to_string(),
        Err(err) => format!("{err}"),
    }
}

fn tls_connector(require_tls: bool) -> hyper_rustls::HttpsConnector<hyper_util::client::legacy::connect::HttpConnector<GaiResolver>> {
    let tls = TlsConfig::new(client_config(), require_tls);
    assert!(!tls.has_preset_alpn_protocols());
    tls.wrap_connector(TcpConfig::default().build_connector(GaiResolver::new())).into_inner()
}

#[test]
fn plain_tcp_connector_refuses_https_uris() {
    let connector = TcpConfig::default().build_connector(GaiResolver::new()).into_inner();
    let err = connect_error(connector, "https://127.0.0.1:1");
    assert!(err.contains("scheme is not http"), "{err}");
}

#[test]
fn tls_connector_hands_https_uris_to_tcp() {
    for require_tls in [true, false] {
        let err = connect_error(tls_connector(require_tls), "https://127.0.0.1:1");
        assert!(!err.contains("scheme is not http"), "{err}");
        assert!(!err.contains("unsupported scheme"), "{err}");
    }
}

#[test]
fn required_tls_refuses_plain_http() {
    let err = connect_error(tls_connector(true), "http://127.0.0.1:1");
    assert!(err.contains("unsupported scheme http"), "{err}");
}

#[test]
fn optional_tls_lets_plain_http_through() {
    let err = connect_error(tls_connector(false), "http://127.0.0.1:1");
    assert!(!err.contains("unsupported scheme"), "{err}");
    assert!(!err.contains("scheme is not http"), "{err}");
}
