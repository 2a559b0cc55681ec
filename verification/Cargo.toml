[package]
name = "renamed"
version = "0.1.0"
edition = "2021"
publish = false

[dependencies]
log = "0.4"
mime_guess = "2"
reqwest = { version = "0.12", default-features = false, features = ["multipart"] }
serde = { version = "1", features = ["derive"] }
serde_json = "1"
thiserror = "1"
tokio = { version = "1", features = ["time", "fs"] }
