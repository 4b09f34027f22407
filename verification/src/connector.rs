//! The gRPC connector: which transport connections are made over, and the
//! timeout that applies to each connection attempt.
use std::sync::Arc;
use std::time::Duration;
use vstd::prelude::*;

use crate::connectors::{DefaultOr, TcpConnector, TlsConnector};
use crate::tcp::TcpLocalAddress;
use crate::tcp::TcpConfig;
use crate::tls::TlsConfig;

verus! {

#[verifier::external_type_specification]
#[verifier::external_body]
pub struct ExUri(http::Uri);

#[verifier::external_type_specification]
#[verifier::external_body]
pub struct ExPathBuf(std::path::PathBuf);

/// The transport that a connector makes its connections over. `R` is the
/// DNS resolver of the TCP transports, `C` the service of a custom one.
#[verifier::reject_recursive_types(R)]
pub enum Transport<R, C> {
    /// TCP to the host of the URI, resolved by DNS.
    DnsTcp(http::Uri, TcpConnector<R>),
    /// TLS over TCP to the host of the URI, resolved by DNS.
    DnsTcpTls(http::Uri, TlsConnector<R>),
    /// A Unix domain socket at the path.
    Unix(Arc<std::path::PathBuf>),
    /// A vsock socket at the context identifier and port.
    Vsock(u32, u32),
    /// A service that hands out established streams.
    Custom(C),
}

impl<R, C> Transport<R, C> {
    /// Whether the transport is ready to connect at any time, so that a
    /// connector over it need not poll anything before connecting: Unix and
    /// vsock sockets are, the others defer to the connector or service they
    /// hold.
    pub fn ready_without_polling(&self) -> (ready: bool)
        ensures
            ready == (self is Unix || self is Vsock),
    {
        match self {
            Transport::Unix(_) => true,
            Transport::Vsock(_, _) => true,
            _ => false,
        }
    }
}

/// A gRPC connector: the transport, and the timeout that each connection
/// attempt runs under, if any.
#[verifier::reject_recursive_types(R)]
pub struct GrpcConnector<R, C> {
    pub transport: Transport<R, C>,
    pub timeout: Option<Duration>,
}

/// A builder for a [GrpcConnector].
pub struct GrpcConnectorBuilder {
    timeout: Option<Duration>,
}

impl GrpcConnectorBuilder {
    /// The timeout that connectors built from here apply.
    pub closed spec fn timeout_setting(&self) -> Option<Duration> {
        self.timeout
    }

    /// A builder without a timeout.
    pub fn new() -> (builder: Self)
        ensures
            builder.timeout_setting() is None,
    {
        GrpcConnectorBuilder { timeout: None }
    }

    /// Sets the timeout for each connection attempt of the connector.
    pub fn timeout(self, timeout: Duration) -> (builder: Self)
        ensures
            builder.timeout_setting() == Some(timeout),
    {
        let mut builder = self;
        builder.timeout = Some(timeout);
        builder
    }

    /// A connector over TCP to the host of `uri`, resolved by `dns_resolver`,
    /// with the TCP settings of `tcp_config`.
    pub fn build_to_tcp_host<R, C>(self, uri: http::Uri, dns_resolver: R, tcp_config: TcpConfig) -> (connector:
        GrpcConnector<R, C>)
        ensures
            connector.timeout == self.timeout_setting(),
            connector.transport matches Transport::DnsTcp(u, tcp) && u == uri && tcp@ == tcp_config.connector_config(
                dns_resolver,
            ),
            match connector.transport {
                Transport::DnsTcp(_, tcp) => {
                    &&& match tcp_config.keepalive {
                        Some(k) => tcp@.keepalive_time == Some(k.duration) && tcp@.keepalive_interval == Some(k.interval)
                            && tcp@.keepalive_retries == Some(k.retries),
                        None => tcp@.keepalive_time is None && tcp@.keepalive_interval is None && tcp@.keepalive_retries is None,
                    }
                    &&& match tcp_config.nodelay {
                        Some(nodelay) => tcp@.nodelay == nodelay,
                        None => !tcp@.nodelay,
                    }
                    &&& tcp@.send_buffer_size == tcp_config.send_buffer_size
                    &&& tcp@.recv_buffer_size == tcp_config.recv_buffer_size
                    &&& match tcp_config.local_address {
                        Some(TcpLocalAddress::V4(v4)) => tcp@.local_address_ipv4 == Some(v4) && tcp@.local_address_ipv6 is None,
                        Some(TcpLocalAddress::V6(v6)) => tcp@.local_address_ipv4 is None && tcp@.local_address_ipv6 == Some(v6),
                        Some(TcpLocalAddress::Both(v4, v6)) => tcp@.local_address_ipv4 == Some(v4) && tcp@.local_address_ipv6 == Some(v6),
                        None => tcp@.local_address_ipv4 is None && tcp@.local_address_ipv6 is None,
                    }
                    &&& tcp@.connect_timeout == tcp_config.internal_timeout
                    &&& match tcp_config.happy_eyeballs_timeout {
                        Some(timeout) => tcp@.happy_eyeballs_timeout == DefaultOr::Given(Some(timeout)),
                        None => tcp@.happy_eyeballs_timeout is Default,
                    }
                    &&& match tcp_config.reuse_address {
                        Some(reuse) => tcp@.reuse_address == reuse,
                        None => !tcp@.reuse_address,
                    }
                    &&& tcp@.interface == tcp_config.interface
                    &&& tcp@.tcp_user_timeout == tcp_config.user_timeout
                    &&& tcp@.resolver == dns_resolver
                    &&& tcp@.enforce_http == true
                },
                _ => false,
            },
    {
        let tcp = tcp_config.build_connector(dns_resolver);
        self.build(Transport::DnsTcp(uri, tcp))
    }

    /// A connector over TLS over TCP to the host of `uri`, resolved by
    /// `dns_resolver`, with the TCP settings of `tcp_config` and the TLS
    /// settings of `tls_config`; it negotiates HTTP/2, and connects to
    /// `https` URIs only exactly when `tls_config` requires TLS, while plain
    /// `http` URIs go through without TLS when it does not.
    pub fn build_to_tcp_host_with_tls<R, C>(
        self,
        uri: http::Uri,
        dns_resolver: R,
        tcp_config: TcpConfig,
        tls_config: TlsConfig,
    ) -> (connector: GrpcConnector<R, C>)
        requires
            tls_config.preset_alpn_protocols().len() == 0,
        ensures
            connector.timeout == self.timeout_setting(),
            connector.transport matches Transport::DnsTcpTls(u, tls) && u == uri
                && tls_config.https_connector_config(tcp_config.connector_config(dns_resolver), tls@),
            match connector.transport {
                Transport::DnsTcpTls(_, tls) => {
                    &&& match tcp_config.keepalive {
                        Some(k) => tls@.http.keepalive_time == Some(k.duration) && tls@.http.keepalive_interval == Some(k.interval)
                            && tls@.http.keepalive_retries == Some(k.retries),
                        None => tls@.http.keepalive_time is None && tls@.http.keepalive_interval is None && tls@.http.keepalive_retries is None,
                    }
                    &&& match tcp_config.nodelay {
                        Some(nodelay) => tls@.http.nodelay == nodelay,
                        None => !tls@.http.nodelay,
                    }
                    &&& tls@.http.send_buffer_size == tcp_config.send_buffer_size
                    &&& tls@.http.recv_buffer_size == tcp_config.recv_buffer_size
                    &&& match tcp_config.local_address {
                        Some(TcpLocalAddress::V4(v4)) => tls@.http.local_address_ipv4 == Some(v4) && tls@.http.local_address_ipv6 is None,
                        Some(TcpLocalAddress::V6(v6)) => tls@.http.local_address_ipv4 is None && tls@.http.local_address_ipv6 == Some(v6),
                        Some(TcpLocalAddress::Both(v4, v6)) => tls@.http.local_address_ipv4 == Some(v4) && tls@.http.local_address_ipv6 == Some(v6),
                        None => tls@.http.local_address_ipv4 is None && tls@.http.local_address_ipv6 is None,
                    }
                    &&& tls@.http.connect_timeout == tcp_config.internal_timeout
                    &&& match tcp_config.happy_eyeballs_timeout {
                        Some(timeout) => tls@.http.happy_eyeballs_timeout == DefaultOr::Given(Some(timeout)),
                        None => tls@.http.happy_eyeballs_timeout is Default,
                    }
                    &&& match tcp_config.reuse_address {
                        Some(reuse) => tls@.http.reuse_address == reuse,
                        None => !tls@.http.reuse_address,
                    }
                    &&& tls@.http.interface == tcp_config.interface
                    &&& tls@.http.tcp_user_timeout == tcp_config.user_timeout
                    &&& tls@.http.resolver == dns_resolver
                    &&& tls@.http.enforce_http == false
                    &&& tls@.force_https == tls_config.requires_tls()
                    &&& tls@.tls_config == tls_config.client_config()
                },
                _ => false,
            },
    {
        let tcp = tcp_config.build_connector(dns_resolver);
        let tls = tls_config.wrap_connector(tcp);
        self.build(Transport::DnsTcpTls(uri, tls))
    }

    /// A connector over the Unix domain socket at `socket_path`.
    pub fn build_to_unix_socket<R, C>(self, socket_path: std::path::PathBuf) -> (connector: GrpcConnector<R, C>)
        ensures
            connector.timeout == self.timeout_setting(),
            connector.transport == Transport::<R, C>::Unix(Arc::new(socket_path)),
    {
        self.build(Transport::Unix(Arc::new(socket_path)))
    }

    /// A connector over the vsock socket at context identifier `cid` and
    /// port `port`.
    pub fn build_to_vsock_socket<R, C>(self, cid: u32, port: u32) -> (connector: GrpcConnector<R, C>)
        ensures
            connector.timeout == self.timeout_setting(),
            connector.transport == Transport::<R, C>::Vsock(cid, port),
    {
        self.build(Transport::Vsock(cid, port))
    }

    /// A connector whose connections are the streams that `service` hands
    /// out.
    pub fn build_custom<R, C>(self, service: C) -> (connector: GrpcConnector<R, C>)
        ensures
            connector.timeout == self.timeout_setting(),
            connector.transport == Transport::<R, C>::Custom(service),
    {
        self.build(Transport::Custom(service))
    }

    fn build<R, C>(self, transport: Transport<R, C>) -> (connector: GrpcConnector<R, C>)
        ensures
            connector.timeout == self.timeout_setting(),
            connector.transport == transport,
    {
        GrpcConnector { transport, timeout: self.timeout }
    }
}

} // verus!
