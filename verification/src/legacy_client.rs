//! Trusted declarations for `hyper_util`'s pooling client builder and its
//! Tokio executor.
//!
//! The builder is held together with a ghost record of the options set on
//! it, in a struct whose fields only this module can reach; the record
//! changes only through the setters below, each of which stores its argument
//! in the builder's pool, client or HTTP/2 settings (hyper-util 0.1,
//! `client/legacy/client.rs`; hyper 1, `client/conn/http2.rs` for the HTTP/2
//! settings it forwards to, where the window sizes and the adaptive window
//! affect each other).
use std::time::Duration;
use vstd::prelude::*;

verus! {

#[verifier::external_type_specification]
#[verifier::external_body]
pub struct ExTokioExecutor(hyper_util::rt::TokioExecutor);

#[verifier::external_type_specification]
#[verifier::external_body]
pub struct ExClientBuilder(hyper_util::client::legacy::Builder);

/// The initial HTTP/2 flow-control window that the protocol fixes (RFC 9113,
/// `SETTINGS_INITIAL_WINDOW_SIZE`), which hyper falls back to when the
/// adaptive window is enabled.
pub const HTTP2_SPEC_WINDOW_SIZE: u32 = 65535;

/// The options of the pooling client builder, named after its setters.
/// `None` means that the option was never set, so the client keeps its own
/// default; `Some(v)` means that the option holds `v`. Enabling the adaptive
/// window resets both windows, and setting a window turns the adaptive
/// window off, as hyper does.
pub struct ClientOptions {
    pub pool_idle_timeout: Option<Duration>,
    pub pool_max_idle_per_host: Option<usize>,
    pub http2_max_pending_accept_reset_streams: Option<usize>,
    pub http2_initial_stream_window_size: Option<u32>,
    pub http2_initial_connection_window_size: Option<u32>,
    pub http2_initial_max_send_streams: Option<usize>,
    pub http2_adaptive_window: Option<bool>,
    pub http2_max_frame_size: Option<u32>,
    pub http2_max_header_list_size: Option<u32>,
    pub http2_keep_alive_interval: Option<Duration>,
    pub http2_keep_alive_timeout: Option<Duration>,
    pub http2_keep_alive_while_idle: Option<bool>,
    pub http2_max_concurrent_reset_streams: Option<usize>,
    pub http2_only: Option<bool>,
}

impl ClientOptions {
    /// Every option at the client's default.
    pub open spec fn untouched() -> ClientOptions {
        ClientOptions {
            pool_idle_timeout: None,
            pool_max_idle_per_host: None,
            http2_max_pending_accept_reset_streams: None,
            http2_initial_stream_window_size: None,
            http2_initial_connection_window_size: None,
            http2_initial_max_send_streams: None,
            http2_adaptive_window: None,
            http2_max_frame_size: None,
            http2_max_header_list_size: None,
            http2_keep_alive_interval: None,
            http2_keep_alive_timeout: None,
            http2_keep_alive_while_idle: None,
            http2_max_concurrent_reset_streams: None,
            http2_only: None,
        }
    }
}

/// `hyper_util`'s pooling client builder, viewed as its options.
pub struct ClientBuilder {
    builder: hyper_util::client::legacy::Builder,
    options: Ghost<ClientOptions>,
}

impl View for ClientBuilder {
    type V = ClientOptions;

    closed spec fn view(&self) -> ClientOptions {
        self.options@
    }
}

/// `TokioExecutor::new`.
#[verifier::external_body]
pub(crate) fn tokio_executor() -> hyper_util::rt::TokioExecutor {
    hyper_util::rt::TokioExecutor::new()
}

impl ClientBuilder {
    /// The `hyper_util` builder held here.
    pub closed spec fn builder(&self) -> hyper_util::client::legacy::Builder {
        self.builder
    }

    /// The builder, for the runtime that builds the client.
    pub fn into_inner(self) -> (b: hyper_util::client::legacy::Builder)
        ensures
            b == self.builder(),
    {
        self.builder
    }

    /// `Builder::new`, with the Tokio executor: every option at its default.
    #[verifier::external_body]
    pub(crate) fn new(executor: hyper_util::rt::TokioExecutor) -> (b: Self)
        ensures
            b@ == ClientOptions::untouched(),
    {
        ClientBuilder { builder: hyper_util::client::legacy::Builder::new(executor), options: Ghost(ClientOptions::untouched()) }
    }

    /// `Builder::pool_idle_timeout`.
    #[verifier::external_body]
    pub(crate) fn pool_idle_timeout(&mut self, timeout: Duration)
        ensures
            final(self)@ == (ClientOptions { pool_idle_timeout: Some(timeout), ..old(self)@ }),
    {
        self.builder.pool_idle_timeout(timeout);
    }

    /// `Builder::pool_max_idle_per_host`.
    #[verifier::external_body]
    pub(crate) fn pool_max_idle_per_host(&mut self, max: usize)
        ensures
            final(self)@ == (ClientOptions { pool_max_idle_per_host: Some(max), ..old(self)@ }),
    {
        self.builder.pool_max_idle_per_host(max);
    }

    /// `Builder::http2_max_pending_accept_reset_streams`.
    #[verifier::external_body]
    pub(crate) fn http2_max_pending_accept_reset_streams(&mut self, max: usize)
        ensures
            final(self)@ == (ClientOptions { http2_max_pending_accept_reset_streams: Some(max), ..old(self)@ }),
    {
        self.builder.http2_max_pending_accept_reset_streams(max);
    }

    /// `Builder::http2_initial_stream_window_size`: hyper sets the window and
    /// turns the adaptive window off.
    #[verifier::external_body]
    pub(crate) fn http2_initial_stream_window_size(&mut self, size: u32)
        ensures
            final(self)@ == (ClientOptions {
                http2_initial_stream_window_size: Some(size),
                http2_adaptive_window: Some(false),
                ..old(self)@
            }),
    {
        self.builder.http2_initial_stream_window_size(size);
    }

    /// `Builder::http2_initial_connection_window_size`: hyper sets the window
    /// and turns the adaptive window off.
    #[verifier::external_body]
    pub(crate) fn http2_initial_connection_window_size(&mut self, size: u32)
        ensures
            final(self)@ == (ClientOptions {
                http2_initial_connection_window_size: Some(size),
                http2_adaptive_window: Some(false),
                ..old(self)@
            }),
    {
        self.builder.http2_initial_connection_window_size(size);
    }

    /// `Builder::http2_initial_max_send_streams`.
    #[verifier::external_body]
    pub(crate) fn http2_initial_max_send_streams(&mut self, initial: usize)
        ensures
            final(self)@ == (ClientOptions { http2_initial_max_send_streams: Some(initial), ..old(self)@ }),
    {
        self.builder.http2_initial_max_send_streams(initial);
    }

    /// `Builder::http2_adaptive_window`: enabling it also resets both
    /// windows to the protocol's initial size.
    #[verifier::external_body]
    pub(crate) fn http2_adaptive_window(&mut self, enabled: bool)
        ensures
            final(self)@ == (if enabled {
                ClientOptions {
                    http2_adaptive_window: Some(true),
                    http2_initial_stream_window_size: Some(HTTP2_SPEC_WINDOW_SIZE),
                    http2_initial_connection_window_size: Some(HTTP2_SPEC_WINDOW_SIZE),
                    ..old(self)@
                }
            } else {
                ClientOptions { http2_adaptive_window: Some(false), ..old(self)@ }
            }),
    {
        self.builder.http2_adaptive_window(enabled);
    }

    /// `Builder::http2_max_frame_size`.
    #[verifier::external_body]
    pub(crate) fn http2_max_frame_size(&mut self, size: u32)
        ensures
            final(self)@ == (ClientOptions { http2_max_frame_size: Some(size), ..old(self)@ }),
    {
        self.builder.http2_max_frame_size(size);
    }

    /// `Builder::http2_max_header_list_size`.
    #[verifier::external_body]
    pub(crate) fn http2_max_header_list_size(&mut self, size: u32)
        ensures
            final(self)@ == (ClientOptions { http2_max_header_list_size: Some(size), ..old(self)@ }),
    {
        self.builder.http2_max_header_list_size(size);
    }

    /// `Builder::http2_keep_alive_interval`.
    #[verifier::external_body]
    pub(crate) fn http2_keep_alive_interval(&mut self, interval: Duration)
        ensures
            final(self)@ == (ClientOptions { http2_keep_alive_interval: Some(interval), ..old(self)@ }),
    {
        self.builder.http2_keep_alive_interval(interval);
    }

    /// `Builder::http2_keep_alive_timeout`.
    #[verifier::external_body]
    pub(crate) fn http2_keep_alive_timeout(&mut self, timeout: Duration)
        ensures
            final(self)@ == (ClientOptions { http2_keep_alive_timeout: Some(timeout), ..old(self)@ }),
    {
        self.builder.http2_keep_alive_timeout(timeout);
    }

    /// `Builder::http2_keep_alive_while_idle`.
    #[verifier::external_body]
    pub(crate) fn http2_keep_alive_while_idle(&mut self, enabled: bool)
        ensures
            final(self)@ == (ClientOptions { http2_keep_alive_while_idle: Some(enabled), ..old(self)@ }),
    {
        self.builder.http2_keep_alive_while_idle(enabled);
    }

    /// `Builder::http2_max_concurrent_reset_streams`.
    #[verifier::external_body]
    pub(crate) fn http2_max_concurrent_reset_streams(&mut self, max: usize)
        ensures
            final(self)@ == (ClientOptions { http2_max_concurrent_reset_streams: Some(max), ..old(self)@ }),
    {
        self.builder.http2_max_concurrent_reset_streams(max);
    }

    /// `Builder::http2_only`.
    #[verifier::external_body]
    pub(crate) fn http2_only(&mut self, enabled: bool)
        ensures
            final(self)@ == (ClientOptions { http2_only: Some(enabled), ..old(self)@ }),
    {
        self.builder.http2_only(enabled);
    }
}

} // verus!
