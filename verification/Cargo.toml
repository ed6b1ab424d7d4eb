[package]
name = "baserow_rs"
version = "0.1.0"
edition = "2021"
publish = false

[dependencies]
async-trait = "=0.1.92"
mime_guess = "=2.0.5"
reqwest = { version = "=0.12.28", features = ["json", "multipart", "stream"] }
serde = { version = "=1.0.229", features = ["derive"] }
serde_json = "=1.0.154"
thiserror = "=1.0.69"
tokio = { version = "=1.54.1", features = ["fs"] }
tokio-util = { version = "=0.7.20", features = ["codec"] }
tracing = "=0.1.44"
