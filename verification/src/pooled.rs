//! The builder of a channel backed by a pool of HTTP/2 connections.
use std::time::Duration;
use vstd::prelude::*;

use crate::legacy_client::{self, ClientBuilder, ClientOptions, HTTP2_SPEC_WINDOW_SIZE};

verus! {

/// What a pooled channel is built with: the timeout of each request, and the
/// options of the pooling client.
pub struct PooledChannelSettings {
    pub timeout: Option<Duration>,
    pub client: ClientOptions,
}

/// A builder for a pooled channel.
pub struct PooledGrpcChannelBuilder {
    timeout: Option<Duration>,
    client_builder: ClientBuilder,
}

impl View for PooledGrpcChannelBuilder {
    type V = PooledChannelSettings;

    closed spec fn view(&self) -> PooledChannelSettings {
        PooledChannelSettings { timeout: self.timeout, client: self.client_builder@ }
    }
}

impl PooledGrpcChannelBuilder {
    /// The `hyper_util` client builder that the channel's client is built
    /// with.
    pub closed spec fn client_builder(&self) -> hyper_util::client::legacy::Builder {
        self.client_builder.builder()
    }

    /// A builder with no timeout and the client's defaults.
    pub fn new() -> (builder: Self)
        ensures
            builder@ == (PooledChannelSettings { timeout: None, client: ClientOptions::untouched() }),
    {
        PooledGrpcChannelBuilder {
            timeout: None,
            client_builder: ClientBuilder::new(legacy_client::tokio_executor()),
        }
    }

    /// Sets a timeout for all requests performed on the channel; the client
    /// builder stays as it is.
    pub fn timeout(self, timeout: Duration) -> (builder: Self)
        ensures
            builder@ == (PooledChannelSettings { timeout: Some(timeout), ..self@ }),
            builder.client_builder() == self.client_builder(),
    {
        let mut builder = self;
        builder.timeout = Some(timeout);
        builder
    }

    /// Sets how long an idle pooled connection is kept.
    pub fn pool_idle_timeout(self, timeout: Duration) -> (builder: Self)
        ensures
            builder@ == (PooledChannelSettings { client: ClientOptions { pool_idle_timeout: Some(timeout), ..self@.client }, ..self@ }),
    {
        let mut builder = self;
        builder.client_builder.pool_idle_timeout(timeout);
        builder
    }

    /// Sets the most idle connections kept per host.
    pub fn max_idle_connections(self, max: usize) -> (builder: Self)
        ensures
            builder@ == (PooledChannelSettings { client: ClientOptions { pool_max_idle_per_host: Some(max), ..self@.client }, ..self@ }),
    {
        let mut builder = self;
        builder.client_builder.pool_max_idle_per_host(max);
        builder
    }

    /// Sets the most pending-accept reset streams.
    pub fn http2_max_pending_accept_reset_streams(self, max: usize) -> (builder: Self)
        ensures
            builder@ == (PooledChannelSettings { client: ClientOptions { http2_max_pending_accept_reset_streams: Some(max), ..self@.client }, ..self@ }),
    {
        let mut builder = self;
        builder.client_builder.http2_max_pending_accept_reset_streams(max);
        builder
    }

    /// Sets the initial stream-level flow control window and turns the
    /// adaptive window off.
    pub fn http2_initial_stream_window_size(self, size: u32) -> (builder: Self)
        ensures
            builder@ == (PooledChannelSettings {
                client: ClientOptions {
                    http2_initial_stream_window_size: Some(size),
                    http2_adaptive_window: Some(false),
                    ..self@.client
                },
                ..self@
            }),
    {
        let mut builder = self;
        builder.client_builder.http2_initial_stream_window_size(size);
        builder
    }

    /// Sets the initial connection-level flow control window and turns the
    /// adaptive window off.
    pub fn http2_initial_connection_window_size(self, size: u32) -> (builder: Self)
        ensures
            builder@ == (PooledChannelSettings {
                client: ClientOptions {
                    http2_initial_connection_window_size: Some(size),
                    http2_adaptive_window: Some(false),
                    ..self@.client
                },
                ..self@
            }),
    {
        let mut builder = self;
        builder.client_builder.http2_initial_connection_window_size(size);
        builder
    }

    /// Sets the initial maximum of locally initiated streams.
    pub fn http2_initial_max_send_streams(self, initial: usize) -> (builder: Self)
        ensures
            builder@ == (PooledChannelSettings { client: ClientOptions { http2_initial_max_send_streams: Some(initial), ..self@.client }, ..self@ }),
    {
        let mut builder = self;
        builder.client_builder.http2_initial_max_send_streams(initial);
        builder
    }

    /// Sets whether flow control adapts its window; enabling it resets both
    /// windows to the protocol's initial size.
    pub fn http2_adaptive_window(self, enabled: bool) -> (builder: Self)
        ensures
            builder@ == (PooledChannelSettings {
                client: if enabled {
                    ClientOptions {
                        http2_adaptive_window: Some(true),
                        http2_initial_stream_window_size: Some(HTTP2_SPEC_WINDOW_SIZE),
                        http2_initial_connection_window_size: Some(HTTP2_SPEC_WINDOW_SIZE),
                        ..self@.client
                    }
                } else {
                    ClientOptions { http2_adaptive_window: Some(false), ..self@.client }
                },
                ..self@
            }),
    {
        let mut builder = self;
        builder.client_builder.http2_adaptive_window(enabled);
        builder
    }

    /// Sets the largest frame size.
    pub fn http2_max_frame_size(self, size: u32) -> (builder: Self)
        ensures
            builder@ == (PooledChannelSettings { client: ClientOptions { http2_max_frame_size: Some(size), ..self@.client }, ..self@ }),
    {
        let mut builder = self;
        builder.client_builder.http2_max_frame_size(size);
        builder
    }

    /// Sets the largest header list size.
    pub fn http2_max_header_list_size(self, size: u32) -> (builder: Self)
        ensures
            builder@ == (PooledChannelSettings { client: ClientOptions { http2_max_header_list_size: Some(size), ..self@.client }, ..self@ }),
    {
        let mut builder = self;
        builder.client_builder.http2_max_header_list_size(size);
        builder
    }

    /// Sets the interval of HTTP/2 keep-alive pings.
    pub fn http2_keep_alive_interval(self, interval: Duration) -> (builder: Self)
        ensures
            builder@ == (PooledChannelSettings { client: ClientOptions { http2_keep_alive_interval: Some(interval), ..self@.client }, ..self@ }),
    {
        let mut builder = self;
        builder.client_builder.http2_keep_alive_interval(interval);
        builder
    }

    /// Sets how long a keep-alive ping waits for its acknowledgement.
    pub fn http2_keep_alive_timeout(self, timeout: Duration) -> (builder: Self)
        ensures
            builder@ == (PooledChannelSettings { client: ClientOptions { http2_keep_alive_timeout: Some(timeout), ..self@.client }, ..self@ }),
    {
        let mut builder = self;
        builder.client_builder.http2_keep_alive_timeout(timeout);
        builder
    }

    /// Sets whether keep-alive pings are sent on idle connections.
    pub fn http2_keep_alive_while_idle(self, enabled: bool) -> (builder: Self)
        ensures
            builder@ == (PooledChannelSettings { client: ClientOptions { http2_keep_alive_while_idle: Some(enabled), ..self@.client }, ..self@ }),
    {
        let mut builder = self;
        builder.client_builder.http2_keep_alive_while_idle(enabled);
        builder
    }

    /// Sets the most concurrently reset streams.
    pub fn http2_max_concurrent_reset_streams(self, max: usize) -> (builder: Self)
        ensures
            builder@ == (PooledChannelSettings { client: ClientOptions { http2_max_concurrent_reset_streams: Some(max), ..self@.client }, ..self@ }),
    {
        let mut builder = self;
        builder.client_builder.http2_max_concurrent_reset_streams(max);
        builder
    }

    /// Makes the client speak HTTP/2 only, as every gRPC channel does; the
    /// last step before the client is built.
    pub fn http2_only(self) -> (builder: Self)
        ensures
            builder@ == (PooledChannelSettings { client: ClientOptions { http2_only: Some(true), ..self@.client }, ..self@ }),
    {
        let mut builder = self;
        builder.client_builder.http2_only(true);
        builder
    }

    /// The client builder, with every option set here, and the timeout, for
    /// the runtime that builds the channel; handed out only once the client
    /// speaks HTTP/2 only.
    pub fn into_parts(self) -> (parts: (hyper_util::client::legacy::Builder, Option<Duration>))
        requires
            self@.client.http2_only == Some(true),
        ensures
            parts.0 == self.client_builder(),
            parts.1 == self@.timeout,
    {
        (self.client_builder.into_inner(), self.timeout)
    }
}

} // verus!
