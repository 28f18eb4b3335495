[package]
name = "cosmic_connect"
version = "0.1.0"
edition = "2021"
publish = false

[dependencies]
percent-encoding = "2"
anyhow = "1"
tokio = { version = "1", features = ["rt-multi-thread", "macros", "sync", "time", "process"] }
futures = "0.3"
serde = { version = "1", features = ["derive"] }
serde_json = "1"
zbus = { version = "5", default-features = false, features = ["tokio"] }
ashpd = { version = "0.11", default-features = false, features = ["tokio"] }
ctrlc = "3"
lazy_static = "1"
tracing = "0.1"
tracing-subscriber = { version = "0.3", features = ["env-filter"] }
