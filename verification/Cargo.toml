[package]
name = "paper_api"
version = "0.1.0"
edition = "2021"
publish = false

[dependencies]
serde_json = "1"
hyper = { version = "0.14", features = ["client", "http1", "http2", "tcp"] }
hyper-tls = "0.5"
tokio = { version = "1", features = ["macros", "rt-multi-thread"] }
clap = "4"
bytes = "1"
