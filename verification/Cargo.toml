[package]
name = "voxtype"
version = "0.1.0"
edition = "2021"
publish = false

[dependencies]
anyhow = "1"
dirs = "5"
reqwest = { version = "0.12", default-features = false, features = ["multipart", "rustls-tls"] }
serde = { version = "1", features = ["derive"] }
serde_json = "1"
tokio = { version = "1", features = ["macros", "process", "rt-multi-thread", "signal", "time"] }
toml = "0.8"
