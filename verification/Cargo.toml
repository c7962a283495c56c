[package]
name = "bencher"
version = "0.1.0"
edition = "2021"
publish = false

[dependencies]
uuid = { version = "=1.29.1", features = ["v4"] }
url = "=2.5.8"
serde = { version = "=1.0.229", features = ["derive"] }
serde_json = "=1.0.154"
clap = { version = "=4.6.7", features = ["derive"] }
tokio = { version = "=1.54.1", features = ["fs", "rt", "macros"] }
reqwest = { version = "=0.12.28", default-features = false }
schemars = "=0.8.22"
once_cell = "=1.21.4"
