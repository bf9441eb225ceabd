[package]
name = "edgequake"
version = "0.1.0"
edition = "2021"
publish = false

[dependencies]
regex = "=1.13.1"
serde = { version = "=1.0.229", features = ["derive"] }
serde_json = "=1.0.154"
reqwest = { version = "=0.12.28", default-features = false, features = ["json"] }
tokio = { version = "=1.54.1", features = ["time", "rt", "macros"] }
uuid = { version = "=1.29.0", features = ["v4"] }
async-trait = "=0.1.92"
futures = "=0.3.34"
chrono = { version = "0.4", default-features = false, features = ["clock"] }
tokio-util = "0.7"
