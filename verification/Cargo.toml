[package]
name = "dtls_transport"
version = "0.1.0"
edition = "2021"
publish = false

[dependencies]
tokio = { version = "=1.53.2", features = ["rt-multi-thread", "sync", "time", "net", "macros"] }
webrtc-dtls = "=0.12.0"
webrtc-util = "=0.11.0"
rustls = "=0.23.45"
rustls-pemfile = "=2.2.0"
rcgen = "=0.13.2"
anyhow = "=1.0.104"
