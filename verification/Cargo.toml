[package]
name = "assemblylift"
version = "0.1.0"
edition = "2021"
publish = false

[dependencies]
anyhow = "1"
base64 = "0.13"
bincode = "1"
crossbeam-channel = "0.5"
handlebars = "4"
hyper = { version = "0.14", features = ["server", "http1", "tcp"] }
serde = { version = "1", features = ["derive"] }
serde_json = "1"
tokio = { version = "1", features = ["rt", "sync", "net"] }
toml = "0.5"
tracing = "0.1"
wasmer = "2"
wasmer-wasi = "2"
