//! TCP settings for connections made over DNS-resolved TCP, and how they
//! configure the connector.
use std::time::Duration;
use vstd::prelude::*;

use crate::connectors::{DefaultOr, HttpConnectorConfig, TcpConnector};

verus! {

/// Keepalive options for a TCP connection.
#[derive(Debug, Clone, Copy)]
pub struct TcpKeepaliveConfig {
    pub duration: Duration,
    pub interval: Duration,
    pub retries: u32,
}

/// A single IP address, by its octets in network order.
#[derive(Debug, Clone, Copy)]
pub enum IpOctets {
    V4([u8; 4]),
    V6([u8; 16]),
}

/// One or multiple IPv4 and/or IPv6 local addresses to use for a TCP
/// connection, each by its octets in network order.
#[derive(Debug, Clone, Copy)]
pub enum TcpLocalAddress {
    V4([u8; 4]),
    V6([u8; 16]),
    Both([u8; 4], [u8; 16]),
}

/// Configuration for TCP connections. Every setting is optional: a setting
/// left at `None` leaves the connector's own default in place.
#[derive(Debug, Clone)]
pub struct TcpConfig {
    pub keepalive: Option<TcpKeepaliveConfig>,
    pub nodelay: Option<bool>,
    pub send_buffer_size: Option<usize>,
    pub recv_buffer_size: Option<usize>,
    pub local_address: Option<TcpLocalAddress>,
    pub internal_timeout: Option<Duration>,
    pub happy_eyeballs_timeout: Option<Duration>,
    pub reuse_address: Option<bool>,
    pub interface: Option<String>,
    pub user_timeout: Option<Duration>,
}

impl TcpConfig {
    /// Whether no setting is given.
    pub open spec fn is_empty(self) -> bool {
        &&& self.keepalive is None
        &&& self.nodelay is None
        &&& self.send_buffer_size is None
        &&& self.recv_buffer_size is None
        &&& self.local_address is None
        &&& self.internal_timeout is None
        &&& self.happy_eyeballs_timeout is None
        &&& self.reuse_address is None
        &&& self.interface is None
        &&& self.user_timeout is None
    }

    /// The settings of the connector built from this configuration with
    /// `resolver`: hyper-util's defaults, with each given setting in place of
    /// the default it stands for. The keepalive triple sets time, interval
    /// and retries; a local address of one family sets that family's address
    /// and clears the other's; the internal timeout is the connect timeout.
    pub open spec fn connector_config<R>(self, resolver: R) -> HttpConnectorConfig<R> {
        let d = HttpConnectorConfig::hyper_util_default(resolver);
        HttpConnectorConfig {
            keepalive_time: match self.keepalive {
                Some(k) => Some(k.duration),
                None => d.keepalive_time,
            },
            keepalive_interval: match self.keepalive {
                Some(k) => Some(k.interval),
                None => d.keepalive_interval,
            },
            keepalive_retries: match self.keepalive {
                Some(k) => Some(k.retries),
                None => d.keepalive_retries,
            },
            nodelay: match self.nodelay {
                Some(nodelay) => nodelay,
                None => d.nodelay,
            },
            send_buffer_size: match self.send_buffer_size {
                Some(size) => Some(size),
                None => d.send_buffer_size,
            },
            recv_buffer_size: match self.recv_buffer_size {
                Some(size) => Some(size),
                None => d.recv_buffer_size,
            },
            local_address_ipv4: match self.local_address {
                Some(TcpLocalAddress::V4(v4)) => Some(v4),
                Some(TcpLocalAddress::V6(_)) => None,
                Some(TcpLocalAddress::Both(v4, _)) => Some(v4),
                None => d.local_address_ipv4,
            },
            local_address_ipv6: match self.local_address {
                Some(TcpLocalAddress::V4(_)) => None,
                Some(TcpLocalAddress::V6(v6)) => Some(v6),
                Some(TcpLocalAddress::Both(_, v6)) => Some(v6),
                None => d.local_address_ipv6,
            },
            connect_timeout: match self.internal_timeout {
                Some(timeout) => Some(timeout),
                None => d.connect_timeout,
            },
            happy_eyeballs_timeout: match self.happy_eyeballs_timeout {
                Some(timeout) => DefaultOr::Given(Some(timeout)),
                None => d.happy_eyeballs_timeout,
            },
            reuse_address: match self.reuse_address {
                Some(reuse) => reuse,
                None => d.reuse_address,
            },
            interface: match self.interface {
                Some(interface) => Some(interface),
                None => d.interface,
            },
            tcp_user_timeout: match self.user_timeout {
                Some(timeout) => Some(timeout),
                None => d.tcp_user_timeout,
            },
            ..d
        }
    }
}

impl Default for TcpConfig {
    fn default() -> (config: Self)
        ensures
            config.is_empty(),
    {
        TcpConfig {
            keepalive: None,
            nodelay: None,
            send_buffer_size: None,
            recv_buffer_size: None,
            local_address: None,
            internal_timeout: None,
            happy_eyeballs_timeout: None,
            reuse_address: None,
            interface: None,
            user_timeout: None,
        }
    }
}

impl TcpConfig {
    /// Builds a connector that resolves names with `resolver` and carries
    /// the settings given here; the settings left at `None` keep hyper-util's
    /// defaults.
    pub fn build_connector<R>(self, resolver: R) -> (c: TcpConnector<R>)
        ensures
            c@ == self.connector_config(resolver),
            match self.keepalive {
                Some(k) => c@.keepalive_time == Some(k.duration) && c@.keepalive_interval == Some(k.interval)
                    && c@.keepalive_retries == Some(k.retries),
                None => c@.keepalive_time is None && c@.keepalive_interval is None && c@.keepalive_retries is None,
            },
            match self.nodelay {
                Some(nodelay) => c@.nodelay == nodelay,
                None => !c@.nodelay,
            },
            c@.send_buffer_size == self.send_buffer_size,
            c@.recv_buffer_size == self.recv_buffer_size,
            match self.local_address {
                Some(TcpLocalAddress::V4(v4)) => c@.local_address_ipv4 == Some(v4) && c@.local_address_ipv6 is None,
                Some(TcpLocalAddress::V6(v6)) => c@.local_address_ipv4 is None && c@.local_address_ipv6 == Some(v6),
                Some(TcpLocalAddress::Both(v4, v6)) => c@.local_address_ipv4 == Some(v4) && c@.local_address_ipv6 == Some(v6),
                None => c@.local_address_ipv4 is None && c@.local_address_ipv6 is None,
            },
            c@.connect_timeout == self.internal_timeout,
            match self.happy_eyeballs_timeout {
                Some(timeout) => c@.happy_eyeballs_timeout == DefaultOr::Given(Some(timeout)),
                None => c@.happy_eyeballs_timeout is Default,
            },
            match self.reuse_address {
                Some(reuse) => c@.reuse_address == reuse,
                None => !c@.reuse_address,
            },
            c@.interface == self.interface,
            c@.tcp_user_timeout == self.user_timeout,
            c@.resolver == resolver,
            c@.enforce_http,
    {
        let mut connector = TcpConnector::new_with_resolver(resolver);

        if let Some(keepalive) = self.keepalive {
            connector.set_keepalive(Some(keepalive.duration));
            connector.set_keepalive_interval(Some(keepalive.interval));
            connector.set_keepalive_retries(Some(keepalive.retries));
        }
        if let Some(nodelay) = self.nodelay {
            connector.set_nodelay(nodelay);
        }
        if let Some(send_buffer_size) = self.send_buffer_size {
            connector.set_send_buffer_size(Some(send_buffer_size));
        }
        if let Some(recv_buffer_size) = self.recv_buffer_size {
            connector.set_recv_buffer_size(Some(recv_buffer_size));
        }
        match self.local_address {
            Some(TcpLocalAddress::V4(v4)) => connector.set_local_address(IpOctets::V4(v4)),
            Some(TcpLocalAddress::V6(v6)) => connector.set_local_address(IpOctets::V6(v6)),
            Some(TcpLocalAddress::Both(v4, v6)) => connector.set_local_addresses(v4, v6),
            None => {},
        }
        if let Some(internal_timeout) = self.internal_timeout {
            connector.set_connect_timeout(Some(internal_timeout));
        }
        if let Some(happy_eyeballs_timeout) = self.happy_eyeballs_timeout {
            connector.set_happy_eyeballs_timeout(Some(happy_eyeballs_timeout));
        }
        if let Some(reuse_address) = self.reuse_address {
            connector.set_reuse_address(reuse_address);
        }
        if let Some(interface) = self.interface {
            connector.set_interface(interface);
        }
        if let Some(user_timeout) = self.user_timeout {
            connector.set_tcp_user_timeout(Some(user_timeout));
        }
        connector
    }
}

impl<R> TcpConnector<R> {
    /// A connector with hyper-util's default settings that resolves names
    /// with `resolver`.
    pub fn new(resolver: R) -> (c: Self)
        ensures
            c@ == HttpConnectorConfig::hyper_util_default(resolver),
    {
        TcpConnector::new_with_resolver(resolver)
    }
}

/// What each setting of a configuration does to the connector built from
/// it: the keepalive triple sets the idle time, the probe interval and the
/// retries in that order; `nodelay` and `reuse_address` set their flags; the
/// buffer sizes, the internal (connect) timeout, the interface and the user
/// timeout are taken as given; a local address of one family binds that
/// family and leaves the other unbound, `Both` binds both; the happy-eyeballs
/// timeout replaces hyper-util's default. A setting left at `None` leaves the
/// connector at hyper-util's default: no keepalive, the no-delay flag off, no
/// buffer sizes, unbound, no connect timeout, the built-in happy-eyeballs
/// timeout, no address reuse, no interface, no user timeout. The connector
/// resolves with the given resolver and insists on `http` URIs.
pub proof fn lemma_connector_config_follows_each_setting<R>(config: TcpConfig, resolver: R)
    ensures
        match config.keepalive {
            Some(k) => config.connector_config(resolver).keepalive_time == Some(k.duration) && config.connector_config(resolver).keepalive_interval == Some(k.interval)
                && config.connector_config(resolver).keepalive_retries == Some(k.retries),
            None => config.connector_config(resolver).keepalive_time is None && config.connector_config(resolver).keepalive_interval is None && config.connector_config(resolver).keepalive_retries is None,
        },
        match config.nodelay {
            Some(nodelay) => config.connector_config(resolver).nodelay == nodelay,
            None => !config.connector_config(resolver).nodelay,
        },
        config.connector_config(resolver).send_buffer_size == config.send_buffer_size,
        config.connector_config(resolver).recv_buffer_size == config.recv_buffer_size,
        match config.local_address {
            Some(TcpLocalAddress::V4(v4)) => config.connector_config(resolver).local_address_ipv4 == Some(v4) && config.connector_config(resolver).local_address_ipv6 is None,
            Some(TcpLocalAddress::V6(v6)) => config.connector_config(resolver).local_address_ipv4 is None && config.connector_config(resolver).local_address_ipv6 == Some(v6),
            Some(TcpLocalAddress::Both(v4, v6)) => config.connector_config(resolver).local_address_ipv4 == Some(v4) && config.connector_config(resolver).local_address_ipv6 == Some(v6),
            None => config.connector_config(resolver).local_address_ipv4 is None && config.connector_config(resolver).local_address_ipv6 is None,
        },
        config.connector_config(resolver).connect_timeout == config.internal_timeout,
        match config.happy_eyeballs_timeout {
            Some(timeout) => config.connector_config(resolver).happy_eyeballs_timeout == DefaultOr::Given(Some(timeout)),
            None => config.connector_config(resolver).happy_eyeballs_timeout is Default,
        },
        match config.reuse_address {
            Some(reuse) => config.connector_config(resolver).reuse_address == reuse,
            None => !config.connector_config(resolver).reuse_address,
        },
        config.connector_config(resolver).interface == config.interface,
        config.connector_config(resolver).tcp_user_timeout == config.user_timeout,
        config.connector_config(resolver).resolver == resolver,
        config.connector_config(resolver).enforce_http,
{
}

/// A configuration without settings builds exactly hyper-util's default
/// connector for the resolver.
pub proof fn lemma_empty_config_is_hyper_util_default<R>(config: TcpConfig, resolver: R)
    requires
        config.is_empty(),
    ensures
        config.connector_config(resolver) == HttpConnectorConfig::hyper_util_default(resolver),
{
}

/// Each setting of the configuration drives its own connector settings
/// only: two configurations that agree on a setting build connectors that
/// agree on what that setting drives, whatever their other settings, and
/// every connector resolves with the resolver it was built with.
pub proof fn lemma_each_setting_drives_its_own<R>(a: TcpConfig, b: TcpConfig, resolver: R)
    ensures
        ({
            let ca = a.connector_config(resolver);
            let cb = b.connector_config(resolver);
            &&& ca.resolver == resolver
            &&& ca.enforce_http
            &&& a.keepalive == b.keepalive ==> ca.keepalive_time == cb.keepalive_time
                && ca.keepalive_interval == cb.keepalive_interval && ca.keepalive_retries == cb.keepalive_retries
            &&& a.nodelay == b.nodelay ==> ca.nodelay == cb.nodelay
            &&& a.send_buffer_size == b.send_buffer_size ==> ca.send_buffer_size == cb.send_buffer_size
            &&& a.recv_buffer_size == b.recv_buffer_size ==> ca.recv_buffer_size == cb.recv_buffer_size
            &&& a.local_address == b.local_address ==> ca.local_address_ipv4 == cb.local_address_ipv4
                && ca.local_address_ipv6 == cb.local_address_ipv6
            &&& a.internal_timeout == b.internal_timeout ==> ca.connect_timeout == cb.connect_timeout
            &&& a.happy_eyeballs_timeout == b.happy_eyeballs_timeout ==> ca.happy_eyeballs_timeout
                == cb.happy_eyeballs_timeout
            &&& a.reuse_address == b.reuse_address ==> ca.reuse_address == cb.reuse_address
            &&& a.interface == b.interface ==> ca.interface == cb.interface
            &&& a.user_timeout == b.user_timeout ==> ca.tcp_user_timeout == cb.tcp_user_timeout
        }),
{
}

} // verus!
