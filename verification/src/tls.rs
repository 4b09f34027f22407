//! TLS settings, and the HTTPS connector built from them over a TCP
//! connector.
use vstd::prelude::*;

use crate::connectors::{self, HttpConnectorConfig, HttpsConnectorConfig, TcpConnector, TlsConnector};

verus! {

/// Configuration for TLS connections backed by `rustls`.
///
/// The ALPN protocols that the client configuration names are read once and
/// kept beside it: the HTTPS connector sets the protocols itself and refuses
/// a configuration that already names some.
pub struct TlsConfig {
    pub(crate) config: rustls::ClientConfig,
    pub(crate) alpn_protocols: Vec<Vec<u8>>,
    pub(crate) require_tls: bool,
}

impl TlsConfig {
    /// Whether connections to servers that do not speak TLS fail (`true`) or
    /// proceed without TLS (`false`).
    pub closed spec fn requires_tls(&self) -> bool {
        self.require_tls
    }

    /// The client configuration.
    pub closed spec fn client_config(&self) -> rustls::ClientConfig {
        self.config
    }

    /// The ALPN protocols read from the client configuration when this was
    /// made (the read is a trusted item that ties its result to nothing, as
    /// the configuration is opaque).
    pub closed spec fn preset_alpn_protocols(&self) -> Seq<Vec<u8>> {
        self.alpn_protocols@
    }

    /// Creates a new [TlsConfig] from a `rustls::ClientConfig` and a `bool`
    /// specifying whether connections not using TLS on the server side should
    /// fail or proceed without TLS.
    pub fn new(config: rustls::ClientConfig, require_tls: bool) -> (tls: Self)
        ensures
            tls.client_config() == config,
            tls.requires_tls() == require_tls,
    {
        let alpn_protocols = connectors::alpn_protocols_of(&config);
        TlsConfig { config, alpn_protocols, require_tls }
    }

    /// Whether the client configuration named ALPN protocols of its own, in
    /// which case no HTTPS connector can be built from it.
    pub fn has_preset_alpn_protocols(&self) -> (preset: bool)
        ensures
            preset == (self.preset_alpn_protocols().len() > 0),
    {
        self.alpn_protocols.len() > 0
    }

    /// The settings of the HTTPS connector built from this configuration
    /// over a TCP connector with settings `tcp`: it refuses non-`https` URIs
    /// exactly when TLS is required, hands `https` URIs to the TCP connector
    /// (which no longer insists on `http`), and offers HTTP/2 alone.
    pub open spec fn https_connector_config<R>(&self, tcp: HttpConnectorConfig<R>, config: HttpsConnectorConfig<R>) -> bool {
        &&& config.force_https == self.requires_tls()
        &&& config.http == (HttpConnectorConfig { enforce_http: false, ..tcp })
        &&& config.tls_config == self.client_config()
        &&& connectors::offers_h2_only(config.alpn_protocols)
    }

    /// The HTTPS connector over `tcp` that speaks HTTP/2 and, when TLS is
    /// required, connects to `https` URIs only. The TCP connector stops
    /// insisting on `http` URIs, so that `https` URIs reach it through TLS.
    pub fn wrap_connector<R>(self, tcp: TcpConnector<R>) -> (c: TlsConnector<R>)
        requires
            self.preset_alpn_protocols().len() == 0,
        ensures
            self.https_connector_config(tcp@, c@),
            c@.force_https == self.requires_tls(),
            c@.http == (HttpConnectorConfig { enforce_http: false, ..tcp@ }),
            !c@.http.enforce_http,
            c@.http.resolver == tcp@.resolver,
            c@.http.connect_timeout == tcp@.connect_timeout,
            c@.http.happy_eyeballs_timeout == tcp@.happy_eyeballs_timeout,
            c@.http.keepalive_time == tcp@.keepalive_time,
            c@.http.keepalive_interval == tcp@.keepalive_interval,
            c@.http.keepalive_retries == tcp@.keepalive_retries,
            c@.http.local_address_ipv4 == tcp@.local_address_ipv4,
            c@.http.local_address_ipv6 == tcp@.local_address_ipv6,
            c@.http.nodelay == tcp@.nodelay,
            c@.http.reuse_address == tcp@.reuse_address,
            c@.http.send_buffer_size == tcp@.send_buffer_size,
            c@.http.recv_buffer_size == tcp@.recv_buffer_size,
            c@.http.interface == tcp@.interface,
            c@.http.tcp_user_timeout == tcp@.tcp_user_timeout,
            c@.tls_config == self.client_config(),
            connectors::offers_h2_only(c@.alpn_protocols),
    {
        let mut tcp = tcp;
        tcp.enforce_http(false);
        let builder = connectors::with_tls_config(connectors::builder_new(), self.config, self.alpn_protocols);
        let builder = match self.require_tls {
            true => connectors::https_only(builder),
            false => connectors::https_or_http(builder),
        };
        let builder = connectors::enable_http2(builder);
        connectors::wrap_connector(builder, tcp)
    }
}

/// What an HTTPS connector built from a TLS configuration over a TCP
/// connector holds: it refuses non-`https` URIs exactly when TLS is required;
/// under it is the TCP connector with every setting it had (resolver,
/// timeouts, keepalive, addresses, flags, buffers, interface), except that it
/// no longer insists on `http` URIs; it carries the given client
/// configuration, and offers `h2` alone.
pub proof fn lemma_https_connector_keeps_tcp_settings<R>(
    tls: TlsConfig,
    tcp: HttpConnectorConfig<R>,
    c: HttpsConnectorConfig<R>,
)
    requires
        tls.https_connector_config(tcp, c),
    ensures
        c.force_https == tls.requires_tls(),
        !c.http.enforce_http,
        c.http.resolver == tcp.resolver,
        c.http.connect_timeout == tcp.connect_timeout,
        c.http.happy_eyeballs_timeout == tcp.happy_eyeballs_timeout,
        c.http.keepalive_time == tcp.keepalive_time,
        c.http.keepalive_interval == tcp.keepalive_interval,
        c.http.keepalive_retries == tcp.keepalive_retries,
        c.http.local_address_ipv4 == tcp.local_address_ipv4,
        c.http.local_address_ipv6 == tcp.local_address_ipv6,
        c.http.nodelay == tcp.nodelay,
        c.http.reuse_address == tcp.reuse_address,
        c.http.send_buffer_size == tcp.send_buffer_size,
        c.http.recv_buffer_size == tcp.recv_buffer_size,
        c.http.interface == tcp.interface,
        c.http.tcp_user_timeout == tcp.tcp_user_timeout,
        c.tls_config == tls.client_config(),
        c.alpn_protocols@.len() == 1,
        c.alpn_protocols@[0]@ == seq![104u8, 50u8],
{
}

} // verus!
