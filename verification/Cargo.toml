[package]
name = "quic_perf"
version = "0.1.0"
edition = "2021"
publish = false

[dependencies]
clap = { version = "4", features = ["derive"] }
quinn = "0.10"
rcgen = "0.12.1"
rustls = { version = "0.21", features = ["dangerous_configuration", "quic"] }
tokio = { version = "1", features = ["full"] }
