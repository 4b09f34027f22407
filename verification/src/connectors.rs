//! Trusted declarations for the two connectors that TCP connections are
//! made with: `hyper_util`'s `HttpConnector` and `hyper_rustls`'
//! `HttpsConnector` over it, with the stages of the builder of the latter.
//!
//! Each outside value is held together with a ghost record of its settings,
//! in a struct whose fields only this module can reach; the record changes
//! only through the trusted items below, whose contracts say how the outside
//! function changes the value's settings (hyper-util 0.1,
//! `client/legacy/connect/http.rs`; hyper-rustls 0.27,
//! `connector/builder.rs` and `connector.rs`).
use std::time::Duration;
use vstd::prelude::*;

use crate::tcp::IpOctets;

verus! {

#[verifier::external_type_specification]
#[verifier::external_body]
#[verifier::reject_recursive_types(R)]
pub struct ExHttpConnector<R>(hyper_util::client::legacy::connect::HttpConnector<R>);

#[verifier::external_type_specification]
#[verifier::external_body]
pub struct ExClientConfig(rustls::ClientConfig);

#[verifier::external_type_specification]
#[verifier::external_body]
#[verifier::reject_recursive_types(State)]
pub struct ExHttpsConnectorBuilder<State>(hyper_rustls::HttpsConnectorBuilder<State>);

#[verifier::external_type_specification]
#[verifier::external_body]
pub struct ExWantsTlsConfig(hyper_rustls::builderstates::WantsTlsConfig);

#[verifier::external_type_specification]
#[verifier::external_body]
pub struct ExWantsSchemes(hyper_rustls::builderstates::WantsSchemes);

#[verifier::external_type_specification]
#[verifier::external_body]
pub struct ExWantsProtocols1(hyper_rustls::builderstates::WantsProtocols1);

#[verifier::external_type_specification]
#[verifier::external_body]
pub struct ExWantsProtocols3(hyper_rustls::builderstates::WantsProtocols3);

#[verifier::external_type_specification]
#[verifier::external_body]
#[verifier::reject_recursive_types(T)]
pub struct ExHttpsConnector<T>(hyper_rustls::HttpsConnector<T>);

/// A setting that holds the connector's built-in default until it is set.
pub enum DefaultOr<T> {
    Default,
    Given(T),
}

/// The settings of a `hyper_util` `HttpConnector`: the fields of its
/// configuration that this library sets, and its resolver.
pub struct HttpConnectorConfig<R> {
    pub resolver: R,
    pub connect_timeout: Option<Duration>,
    pub enforce_http: bool,
    /// Built in: 300 milliseconds.
    pub happy_eyeballs_timeout: DefaultOr<Option<Duration>>,
    pub keepalive_time: Option<Duration>,
    pub keepalive_interval: Option<Duration>,
    pub keepalive_retries: Option<u32>,
    pub local_address_ipv4: Option<[u8; 4]>,
    pub local_address_ipv6: Option<[u8; 16]>,
    pub nodelay: bool,
    pub reuse_address: bool,
    pub send_buffer_size: Option<usize>,
    pub recv_buffer_size: Option<usize>,
    pub interface: Option<String>,
    pub tcp_user_timeout: Option<Duration>,
}

impl<R> HttpConnectorConfig<R> {
    /// The settings of `HttpConnector::new_with_resolver(resolver)`.
    pub open spec fn hyper_util_default(resolver: R) -> HttpConnectorConfig<R> {
        HttpConnectorConfig {
            resolver,
            connect_timeout: None,
            enforce_http: true,
            happy_eyeballs_timeout: DefaultOr::Default,
            keepalive_time: None,
            keepalive_interval: None,
            keepalive_retries: None,
            local_address_ipv4: None,
            local_address_ipv6: None,
            nodelay: false,
            reuse_address: false,
            send_buffer_size: None,
            recv_buffer_size: None,
            interface: None,
            tcp_user_timeout: None,
        }
    }
}

/// A `hyper_util` HTTP connector, viewed as its settings.
#[verifier::reject_recursive_types(R)]
pub struct TcpConnector<R> {
    connector: hyper_util::client::legacy::connect::HttpConnector<R>,
    config: Ghost<HttpConnectorConfig<R>>,
}

impl<R> View for TcpConnector<R> {
    type V = HttpConnectorConfig<R>;

    closed spec fn view(&self) -> HttpConnectorConfig<R> {
        self.config@
    }
}

impl<R> TcpConnector<R> {
    /// The `hyper_util` connector held here.
    pub closed spec fn connector(&self) -> hyper_util::client::legacy::connect::HttpConnector<R> {
        self.connector
    }

    /// The connector, for the runtime that connects with it.
    pub fn into_inner(self) -> (c: hyper_util::client::legacy::connect::HttpConnector<R>)
        ensures
            c == self.connector(),
    {
        self.connector
    }

    /// `HttpConnector::new_with_resolver`: hyper-util's default settings and
    /// the given resolver.
    #[verifier::external_body]
    pub(crate) fn new_with_resolver(resolver: R) -> (c: Self)
        ensures
            c@ == HttpConnectorConfig::hyper_util_default(resolver),
    {
        let config = Ghost(HttpConnectorConfig::hyper_util_default(resolver));
        TcpConnector { connector: hyper_util::client::legacy::connect::HttpConnector::new_with_resolver(resolver), config }
    }

    /// `HttpConnector::enforce_http`.
    #[verifier::external_body]
    pub(crate) fn enforce_http(&mut self, is_enforced: bool)
        ensures
            final(self)@ == (HttpConnectorConfig { enforce_http: is_enforced, ..old(self)@ }),
    {
        self.connector.enforce_http(is_enforced)
    }

    /// `HttpConnector::set_keepalive`.
    #[verifier::external_body]
    pub(crate) fn set_keepalive(&mut self, time: Option<Duration>)
        ensures
            final(self)@ == (HttpConnectorConfig { keepalive_time: time, ..old(self)@ }),
    {
        self.connector.set_keepalive(time)
    }

    /// `HttpConnector::set_keepalive_interval`.
    #[verifier::external_body]
    pub(crate) fn set_keepalive_interval(&mut self, interval: Option<Duration>)
        ensures
            final(self)@ == (HttpConnectorConfig { keepalive_interval: interval, ..old(self)@ }),
    {
        self.connector.set_keepalive_interval(interval)
    }

    /// `HttpConnector::set_keepalive_retries`.
    #[verifier::external_body]
    pub(crate) fn set_keepalive_retries(&mut self, retries: Option<u32>)
        ensures
            final(self)@ == (HttpConnectorConfig { keepalive_retries: retries, ..old(self)@ }),
    {
        self.connector.set_keepalive_retries(retries)
    }

    /// `HttpConnector::set_nodelay`.
    #[verifier::external_body]
    pub(crate) fn set_nodelay(&mut self, nodelay: bool)
        ensures
            final(self)@ == (HttpConnectorConfig { nodelay, ..old(self)@ }),
    {
        self.connector.set_nodelay(nodelay)
    }

    /// `HttpConnector::set_send_buffer_size`.
    #[verifier::external_body]
    pub(crate) fn set_send_buffer_size(&mut self, size: Option<usize>)
        ensures
            final(self)@ == (HttpConnectorConfig { send_buffer_size: size, ..old(self)@ }),
    {
        self.connector.set_send_buffer_size(size)
    }

    /// `HttpConnector::set_recv_buffer_size`.
    #[verifier::external_body]
    pub(crate) fn set_recv_buffer_size(&mut self, size: Option<usize>)
        ensures
            final(self)@ == (HttpConnectorConfig { recv_buffer_size: size, ..old(self)@ }),
    {
        self.connector.set_recv_buffer_size(size)
    }

    /// `HttpConnector::set_local_address` with `Some` address, given by its
    /// octets: the address of its family is set, the other one cleared.
    #[verifier::external_body]
    pub(crate) fn set_local_address(&mut self, addr: IpOctets)
        ensures
            final(self)@ == (match addr {
                IpOctets::V4(a) => HttpConnectorConfig { local_address_ipv4: Some(a), local_address_ipv6: None, ..old(self)@ },
                IpOctets::V6(a) => HttpConnectorConfig { local_address_ipv4: None, local_address_ipv6: Some(a), ..old(self)@ },
            }),
    {
        self.connector.set_local_address(Some(match addr {
            IpOctets::V4(octets) => octets.into(),
            IpOctets::V6(octets) => octets.into(),
        }))
    }

    /// `HttpConnector::set_local_addresses`, with both addresses given by
    /// their octets.
    #[verifier::external_body]
    pub(crate) fn set_local_addresses(&mut self, v4: [u8; 4], v6: [u8; 16])
        ensures
            final(self)@ == (HttpConnectorConfig { local_address_ipv4: Some(v4), local_address_ipv6: Some(v6), ..old(self)@ }),
    {
        self.connector.set_local_addresses(v4.into(), v6.into())
    }

    /// `HttpConnector::set_connect_timeout`.
    #[verifier::external_body]
    pub(crate) fn set_connect_timeout(&mut self, dur: Option<Duration>)
        ensures
            final(self)@ == (HttpConnectorConfig { connect_timeout: dur, ..old(self)@ }),
    {
        self.connector.set_connect_timeout(dur)
    }

    /// `HttpConnector::set_happy_eyeballs_timeout`.
    #[verifier::external_body]
    pub(crate) fn set_happy_eyeballs_timeout(&mut self, dur: Option<Duration>)
        ensures
            final(self)@ == (HttpConnectorConfig { happy_eyeballs_timeout: DefaultOr::Given(dur), ..old(self)@ }),
    {
        self.connector.set_happy_eyeballs_timeout(dur)
    }

    /// `HttpConnector::set_reuse_address`.
    #[verifier::external_body]
    pub(crate) fn set_reuse_address(&mut self, reuse_address: bool)
        ensures
            final(self)@ == (HttpConnectorConfig { reuse_address, ..old(self)@ }),
    {
        self.connector.set_reuse_address(reuse_address);
    }

    /// `HttpConnector::set_interface` (on Linux it stores the name as given).
    #[verifier::external_body]
    pub(crate) fn set_interface(&mut self, interface: String)
        ensures
            final(self)@ == (HttpConnectorConfig { interface: Some(interface), ..old(self)@ }),
    {
        self.connector.set_interface(interface);
    }

    /// `HttpConnector::set_tcp_user_timeout`.
    #[verifier::external_body]
    pub(crate) fn set_tcp_user_timeout(&mut self, time: Option<Duration>)
        ensures
            final(self)@ == (HttpConnectorConfig { tcp_user_timeout: time, ..old(self)@ }),
    {
        self.connector.set_tcp_user_timeout(time)
    }
}

/// What the HTTPS connector builder has gathered: the client configuration
/// with the ALPN protocols that it will carry, and whether only `https` URIs
/// connect (`None` until the schemes are chosen).
pub struct TlsSettings {
    pub tls_config: rustls::ClientConfig,
    pub alpn_protocols: Vec<Vec<u8>>,
    pub https_only: Option<bool>,
}

/// A stage of `hyper_rustls`' HTTPS connector builder, viewed as what it has
/// gathered.
#[verifier::reject_recursive_types(S)]
pub struct HttpsBuilder<S> {
    builder: hyper_rustls::HttpsConnectorBuilder<S>,
    settings: Ghost<TlsSettings>,
}

impl<S> View for HttpsBuilder<S> {
    type V = TlsSettings;

    closed spec fn view(&self) -> TlsSettings {
        self.settings@
    }
}

/// Whether an ALPN list offers HTTP/2 (`h2`) and nothing else.
pub open spec fn offers_h2_only(alpn_protocols: Vec<Vec<u8>>) -> bool {
    &&& alpn_protocols@.len() == 1
    &&& alpn_protocols@[0]@ == seq![104u8, 50u8]
}

/// The settings of a `hyper_rustls` `HttpsConnector`: whether it refuses
/// non-`https` URIs, the settings of the TCP connector under it, and its
/// client configuration with the ALPN protocols it carries.
pub struct HttpsConnectorConfig<R> {
    pub force_https: bool,
    pub http: HttpConnectorConfig<R>,
    pub tls_config: rustls::ClientConfig,
    pub alpn_protocols: Vec<Vec<u8>>,
}

/// A `hyper_rustls` HTTPS connector over a `hyper_util` TCP connector,
/// viewed as its settings.
#[verifier::reject_recursive_types(R)]
pub struct TlsConnector<R> {
    connector: hyper_rustls::HttpsConnector<hyper_util::client::legacy::connect::HttpConnector<R>>,
    config: Ghost<HttpsConnectorConfig<R>>,
}

impl<R> View for TlsConnector<R> {
    type V = HttpsConnectorConfig<R>;

    closed spec fn view(&self) -> HttpsConnectorConfig<R> {
        self.config@
    }
}

impl<R> TlsConnector<R> {
    /// The `hyper_rustls` connector held here.
    pub closed spec fn connector(&self) -> hyper_rustls::HttpsConnector<hyper_util::client::legacy::connect::HttpConnector<R>> {
        self.connector
    }

    /// The connector, for the runtime that connects with it.
    pub fn into_inner(self) -> (c: hyper_rustls::HttpsConnector<hyper_util::client::legacy::connect::HttpConnector<R>>)
        ensures
            c == self.connector(),
    {
        self.connector
    }
}

/// A clone of the `alpn_protocols` field (a public field of
/// `rustls::ClientConfig`). The configuration is opaque to Verus, so nothing
/// ties the result to it in a clause.
#[verifier::external_body]
pub(crate) fn alpn_protocols_of(config: &rustls::ClientConfig) -> Vec<Vec<u8>> {
    config.alpn_protocols.clone()
}

/// `HttpsConnectorBuilder::new`; the first stage gathers nothing.
#[verifier::external_body]
pub(crate) fn builder_new() -> HttpsBuilder<hyper_rustls::builderstates::WantsTlsConfig> {
    HttpsBuilder { builder: hyper_rustls::HttpsConnectorBuilder::new(), settings: Ghost(arbitrary()) }
}

/// `HttpsConnectorBuilder::with_tls_config`, given the configuration and,
/// apart, the ALPN protocols that it is to carry, which are written into it
/// before the call. The outside function asserts that the configuration
/// names no ALPN protocol, hence the precondition.
#[verifier::external_body]
pub(crate) fn with_tls_config(
    builder: HttpsBuilder<hyper_rustls::builderstates::WantsTlsConfig>,
    config: rustls::ClientConfig,
    alpn_protocols: Vec<Vec<u8>>,
) -> (next: HttpsBuilder<hyper_rustls::builderstates::WantsSchemes>)
    requires
        alpn_protocols@.len() == 0,
    ensures
        next@ == (TlsSettings { tls_config: config, alpn_protocols, https_only: None }),
{
    let settings = Ghost(TlsSettings { tls_config: config, alpn_protocols, https_only: None });
    let mut config = config;
    config.alpn_protocols = alpn_protocols;
    HttpsBuilder { builder: builder.builder.with_tls_config(config), settings }
}

/// `HttpsConnectorBuilder::https_only`: only `https` URIs will connect.
#[verifier::external_body]
pub(crate) fn https_only(
    builder: HttpsBuilder<hyper_rustls::builderstates::WantsSchemes>,
) -> (next: HttpsBuilder<hyper_rustls::builderstates::WantsProtocols1>)
    ensures
        next@ == (TlsSettings { https_only: Some(true), ..builder@ }),
{
    let settings = Ghost(TlsSettings { https_only: Some(true), ..builder@ });
    HttpsBuilder { builder: builder.builder.https_only(), settings }
}

/// `HttpsConnectorBuilder::https_or_http`: `https` URIs go through TLS,
/// `http` URIs through the TCP connector alone.
#[verifier::external_body]
pub(crate) fn https_or_http(
    builder: HttpsBuilder<hyper_rustls::builderstates::WantsSchemes>,
) -> (next: HttpsBuilder<hyper_rustls::builderstates::WantsProtocols1>)
    ensures
        next@ == (TlsSettings { https_only: Some(false), ..builder@ }),
{
    let settings = Ghost(TlsSettings { https_only: Some(false), ..builder@ });
    HttpsBuilder { builder: builder.builder.https_or_http(), settings }
}

/// `HttpsConnectorBuilder::enable_http2`: the ALPN protocols become `h2`
/// alone.
#[verifier::external_body]
pub(crate) fn enable_http2(
    builder: HttpsBuilder<hyper_rustls::builderstates::WantsProtocols1>,
) -> (next: HttpsBuilder<hyper_rustls::builderstates::WantsProtocols3>)
    ensures
        next@.tls_config == builder@.tls_config,
        next@.https_only == builder@.https_only,
        offers_h2_only(next@.alpn_protocols),
{
    let settings = Ghost(arbitrary());
    HttpsBuilder { builder: builder.builder.enable_http2(), settings }
}

/// `HttpsConnectorBuilder::wrap_connector`: the HTTPS connector over `tcp`,
/// which refuses non-`https` URIs exactly when the builder was made
/// `https_only`, and carries the gathered client configuration.
#[verifier::external_body]
pub(crate) fn wrap_connector<R>(
    builder: HttpsBuilder<hyper_rustls::builderstates::WantsProtocols3>,
    tcp: TcpConnector<R>,
) -> (c: TlsConnector<R>)
    ensures
        c@ == (HttpsConnectorConfig {
            force_https: builder@.https_only == Some(true),
            http: tcp@,
            tls_config: builder@.tls_config,
            alpn_protocols: builder@.alpn_protocols,
        }),
{
    let config = Ghost(arbitrary());
    TlsConnector { connector: builder.builder.wrap_connector(tcp.connector), config }
}

} // verus!
