[package]
name = "messengerx"
version = "0.1.0"
edition = "2021"
publish = false

[dependencies]
url = "2"
sys-locale = "0.3"
serde = { version = "1", features = ["derive"] }
serde_json = "1"
chrono = "0.4"
log = "0.4"
dirs = "5"
