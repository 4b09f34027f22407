[package]
name = "alternate-tonic-client"
version = "0.1.0"
edition = "2021"
publish = false

[dependencies]
http = "1"
hyper = { version = "1", features = ["client", "http2"] }
hyper-util = { version = "0.1", features = ["client-legacy", "http2", "tokio"] }
hyper-rustls = { version = "0.27", default-features = false, features = ["http2", "ring", "tls12"] }
rustls = { version = "0.23", default-features = false, features = ["ring", "std", "tls12"] }
tokio = { version = "1", features = ["rt", "net", "time"] }
tokio-vsock = "0.7"
tonic = { version = "0.14", default-features = false }
tower = { version = "0.5", features = ["util", "buffer", "reconnect", "timeout"] }
