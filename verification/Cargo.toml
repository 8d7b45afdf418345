[package]
name = "sidecar_supervisor"
version = "0.1.0"
edition = "2021"
publish = false

[dependencies]
portpicker = "=0.1.1"
serde = { version = "1", features = ["derive"] }
tokio = { version = "1", default-features = false, features = ["sync", "time"] }
