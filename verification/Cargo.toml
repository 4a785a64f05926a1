[package]
name = "openai_resources"
version = "0.1.0"
edition = "2021"
publish = false

[dependencies]
base64 = "=0.22.1"
serde = { version = "=1.0.229", features = ["derive"] }
serde_json = "=1.0.154"
url = "=2.5.8"
reqwest = { version = "=0.12.28", default-features = false, features = ["blocking", "multipart"] }
tokio = { version = "=1.54.1", features = ["rt"] }
