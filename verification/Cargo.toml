[package]
name = "gax"
version = "0.1.0"
edition = "2021"
publish = false

[dependencies]
serde_json = "*"
crc32c = "*"
rand = "*"
reqwest = "*"
bytes = "*"
serde = { version = "*", features = ["derive"] }
google-cloud-auth = "*"
tokio = { version = "*", features = ["rt-multi-thread", "macros"] }
