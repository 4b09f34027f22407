//! Connection logic for gRPC clients over several transports (DNS-resolved
//! TCP, TLS over TCP, Unix domain sockets, vsock sockets, and custom
//! streams), verified with Verus: the connector's configuration, the TCP and
//! TLS settings it gives `hyper_util`'s and `hyper_rustls`' connectors, the
//! settings of the pooled and singleton channels, the request URI that
//! requests are sent with, and the rule that settles each call against its
//! deadline.
mod connectors;
mod http2_conn;
mod legacy_client;

pub mod connector;
pub mod outcome;
pub mod pooled;
pub mod singleton;
pub mod tcp;
pub mod tls;
pub mod uri;

pub use connector::{GrpcConnector, GrpcConnectorBuilder, Transport};
pub use connectors::{DefaultOr, HttpConnectorConfig, HttpsConnectorConfig, TcpConnector, TlsConnector};
pub use legacy_client::ClientOptions;
pub use outcome::{CallError, Timed};
pub use pooled::{PooledChannelSettings, PooledGrpcChannelBuilder};
pub use singleton::{SingletonChannelSettings, SingletonGrpcChannelBuilder};
pub use tcp::{IpOctets, TcpConfig, TcpKeepaliveConfig, TcpLocalAddress};
pub use tls::TlsConfig;
pub use uri::UriRewriteError;
