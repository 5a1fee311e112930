[package]
name = "mpps_lifecycle"
version = "0.1.0"
edition = "2021"
publish = false

[dependencies]
serde = { version = "1", features = ["derive"] }
serde_json = "1"
tokio = { version = "1", default-features = false, features = ["sync", "net", "io-util"] }
pyo3 = "0.21"
tauri = { version = "2", default-features = false }
