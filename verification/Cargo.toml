[package]
name = "glb_to_ss"
version = "0.1.0"
edition = "2021"
publish = false

[dependencies]
rustls-pemfile = "2"
tokio = { version = "1", features = ["rt-multi-thread", "net", "io-util"] }
tokio-rustls = "0.25"
tracing = "0.1"
tracing-subscriber = { version = "0.3", default-features = false, features = ["fmt", "std"] }
