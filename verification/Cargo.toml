[package]
name = "coordinator"
version = "0.1.0"
edition = "2021"
publish = false

[dependencies]
anyhow = "*"
crossbeam = "*"
futures = "*"
rusqlite = { version = "*", features = ["bundled"] }
tokio = { version = "*", features = ["rt", "sync"] }
tracing = "*"
