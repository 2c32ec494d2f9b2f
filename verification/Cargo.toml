[package]
name = "flexys_core"
version = "0.1.0"
edition = "2021"
publish = false

[dependencies]
serde_json = "=1.0.151"
jsonschema = { version = "=0.58.6", default-features = false }
reqwest = { version = "=0.13.5", default-features = false, features = ["form"] }
tokio = { version = "=1.53.2", features = ["rt", "rt-multi-thread", "macros", "sync", "time"] }
tokio-stream = "=0.1.19"
actix-web = { version = "=4.15.0", default-features = false }
anyhow = "=1.0.104"
serde = { version = "=1.0.229", features = ["derive"] }
tracing = "=0.1.44"
tracing-subscriber = { version = "=0.3.23", features = ["env-filter", "registry", "fmt"] }
tokio_schedule = "=0.3.2"
