use std::time::Duration;

use alternate_tonic_client::pooled::PooledGrpcChannelBuilder;
use alternate_tonic_client::singleton::SingletonGrpcChannelBuilder;

#[test]
fn pooled_builder_keeps_its_timeout() {
    let (_client_builder, timeout) = PooledGrpcChannelBuilder::new()
        .timeout(Duration::from_secs(4))
        .pool_idle_timeout(Duration::from_secs(90))
        .max_idle_connections(8)
        .http2_max_pending_accept_reset_streams(20)
        .http2_initial_stream_window_size(1 << 20)
        .http2_initial_connection_window_size(1 << 21)
        .http2_initial_max_send_streams(100)
        .http2_adaptive_window(true)
        .http2_max_frame_size(1 << 15)
        .http2_max_header_list_size(1 << 14)
        .http2_keep_alive_interval(Duration::from_secs(20))
        .http2_keep_alive_timeout(Duration::from_secs(10))
        .http2_keep_alive_while_idle(true)
        .http2_max_concurrent_reset_streams(50)
        .http2_only()
        .into_parts();
    assert_eq!(timeout, Some(Duration::from_secs(4)));
}

#[test]
fn pooled_builder_without_timeout() {
    let (_client_builder, timeout) = PooledGrpcChannelBuilder::new().http2_only().into_parts();
    assert_eq!(timeout, None);
}

#[test]
fn singleton_builder_keeps_buffer_size_and_timeout() {
    let (_connection_builder, buffer_size, timeout) = SingletonGrpcChannelBuilder::new(64)
        .configure_http2_connection(|builder| {
            builder.max_frame_size(1 << 15);
        })
        .timeout(Duration::from_millis(1500))
        .into_parts();
    assert_eq!(buffer_size, 64);
    assert_eq!(timeout, Some(Duration::from_millis(1500)));
}

#[test]
fn singleton_builder_without_timeout() {
    let (_connection_builder, buffer_size, timeout) = SingletonGrpcChannelBuilder::new(1).into_parts();
    assert_eq!(buffer_size, 1);
    assert_eq!(timeout, None);
}
