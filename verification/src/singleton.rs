//! The builder of a channel that sends every request over one reconnecting
//! HTTP/2 connection.
use std::time::Duration;
use vstd::prelude::*;

use crate::http2_conn::Http2Builder;
use crate::legacy_client;

verus! {

/// What a singleton channel is built with: the size of the buffer of
/// requests waiting for the connection, the timeout of each request, and
/// whether the HTTP/2 connection builder still holds hyper's defaults with
/// no option set.
pub struct SingletonChannelSettings {
    pub buffer_size: usize,
    pub timeout: Option<Duration>,
    pub http2_defaults: bool,
}

/// A builder for a singleton channel.
pub struct SingletonGrpcChannelBuilder {
    buffer_size: usize,
    connection_builder: Http2Builder,
    timeout: Option<Duration>,
}

impl View for SingletonGrpcChannelBuilder {
    type V = SingletonChannelSettings;

    closed spec fn view(&self) -> SingletonChannelSettings {
        SingletonChannelSettings {
            buffer_size: self.buffer_size,
            timeout: self.timeout,
            http2_defaults: self.connection_builder@,
        }
    }
}

impl SingletonGrpcChannelBuilder {
    /// The HTTP/2 connection builder that the channel's connections are made
    /// with.
    pub closed spec fn connection_builder(&self) -> hyper::client::conn::http2::Builder<hyper_util::rt::TokioExecutor> {
        self.connection_builder.builder()
    }

    /// Creates a new builder from the size of the buffer used for sending
    /// requests to the underlying connection, which runs on a background
    /// task; no timeout, and a fresh HTTP/2 connection builder with hyper's
    /// defaults.
    pub fn new(buffer_size: usize) -> (builder: Self)
        ensures
            builder@ == (SingletonChannelSettings { buffer_size, timeout: None, http2_defaults: true }),
    {
        SingletonGrpcChannelBuilder {
            buffer_size,
            connection_builder: Http2Builder::new(legacy_client::tokio_executor()),
            timeout: None,
        }
    }

    /// Sets options on the HTTP/2 connection builder by a function that
    /// takes it by mutable reference.
    pub fn configure_http2_connection<F: FnOnce(&mut hyper::client::conn::http2::Builder<hyper_util::rt::TokioExecutor>)>(
        self,
        function: F,
    ) -> (builder: Self)
        requires
            forall|b: &mut hyper::client::conn::http2::Builder<hyper_util::rt::TokioExecutor>| function.requires((b,)),
        ensures
            builder@ == (SingletonChannelSettings { http2_defaults: false, ..self@ }),
            exists|b: &mut hyper::client::conn::http2::Builder<hyper_util::rt::TokioExecutor>|
                *b == self.connection_builder() && *final(b) == builder.connection_builder()
                    && function.ensures((b,), ()),
    {
        let mut builder = self;
        builder.connection_builder.configure(function);
        builder
    }

    /// Sets the timeout of every request on the channel; the connection
    /// builder stays as it is.
    pub fn timeout(self, timeout: Duration) -> (builder: Self)
        ensures
            builder@ == (SingletonChannelSettings { timeout: Some(timeout), ..self@ }),
            builder.connection_builder() == self.connection_builder(),
    {
        let mut builder = self;
        builder.timeout = Some(timeout);
        builder
    }

    /// The connection builder, the buffer size and the timeout, for the
    /// runtime that builds the channel.
    pub fn into_parts(self) -> (parts: (
        hyper::client::conn::http2::Builder<hyper_util::rt::TokioExecutor>,
        usize,
        Option<Duration>,
    ))
        ensures
            parts.0 == self.connection_builder(),
            parts.1 == self@.buffer_size,
            parts.2 == self@.timeout,
    {
        (self.connection_builder.into_inner(), self.buffer_size, self.timeout)
    }
}

} // verus!
