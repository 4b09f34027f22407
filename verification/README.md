# alternate-tonic-client

Client-side connectors and channels for gRPC over DNS-resolved TCP, TLS over
TCP, Unix domain sockets, vsock sockets and custom transports.

- `src/` is the library, verified with Verus: the connector builder and the
  transports it selects (`connector.rs`), the TCP settings handed to
  `hyper_util`'s connector (`tcp.rs`), the TLS connector built with
  `hyper_rustls` (`tls.rs`), the settings of the pooled and singleton
  channels (`pooled.rs`, `singleton.rs`), the URI that requests are sent with
  (`uri.rs`) and the rule that settles a call against its deadline
  (`outcome.rs`). The files `connectors.rs`, `legacy_client.rs` and
  `http2_conn.rs` hold the trusted declarations of the outside crates' types
  and functions that the library calls; each outside connector or builder is
  held there with a ghost record of its settings that only those trusted
  items change.
- `app/` is the runtime around it: the `tower` services, futures and streams
  that make connections and send requests.
- `tests/` exercises the library.
