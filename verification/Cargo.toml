[package]
name = "cgid"
version = "0.1.0"
edition = "2021"
publish = false

[dependencies]
base64 = "=0.23.1"
serde_json = { version = "=1.0.151", features = ["float_roundtrip"] }
serde = { version = "*", features = ["derive"] }
tokio = { version = "*", features = ["full"] }
hyper = { version = "*", features = ["server", "http1", "http2"] }
hyper-util = { version = "*", features = ["server", "server-auto", "http1", "http2", "tokio"] }
http-body-util = "*"
tokio-util = { version = "*", features = ["codec", "io"] }
futures-util = "*"
clap = { version = "*", features = ["derive"] }
