[package]
name = "asa_server"
version = "0.1.0"
edition = "2021"
publish = false

[dependencies]
tar = "0.4"
glob = "0.3"
fs-err = "*"
serde = { version = "1", features = ["derive"] }
serde_json = "1"
tokio = { version = "1", features = ["rt", "macros", "sync"] }
async-channel = "*"
async-mutex = "*"
