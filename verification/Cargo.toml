[package]
name = "appstore_bot"
version = "0.1.0"
edition = "2021"
publish = false

[dependencies]
async_zip = { version = "*", features = ["deflate", "tokio"] }
base64 = "0.13"
serde_json = "1"
serde = { version = "1", features = ["derive"] }
tokio = { version = "1", features = ["rt"] }
clap = { version = "4", features = ["derive"] }
