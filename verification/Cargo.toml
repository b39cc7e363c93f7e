[package]
name = "blobscan_client"
version = "0.1.0"
edition = "2021"
publish = false

[dependencies]
chrono = { version = "=0.4.45", default-features = false, features = ["clock"] }
hmac = "=0.12.1"
sha2 = "=0.10.9"
reqwest = { version = "=0.12.28", default-features = false, features = ["json"] }
serde = { version = "=1.0.229", features = ["derive"] }
serde_json = "=1.0.154"

[dev-dependencies]
jsonwebtoken = { version = "=9.3.1", default-features = false }
tokio = { version = "=1.54.1", features = ["rt-multi-thread"] }
