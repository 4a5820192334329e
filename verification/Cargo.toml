[package]
name = "speechx"
version = "0.1.0"
edition = "2021"
publish = false

[dependencies]
strsim = "0.11"
toml = "0.8"
serde = { version = "1", features = ["derive"] }
thiserror = "2"
tracing = "0.1"
tracing-subscriber = { version = "0.3", features = ["env-filter"] }
tokio = { version = "1", features = ["sync", "time", "rt", "macros"] }
hound = "3"
ringbuf = "0.4"
