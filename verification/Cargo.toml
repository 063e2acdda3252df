[package]
name = "stt_client"
version = "0.1.0"
edition = "2021"
publish = false

[dependencies]
hound = "3.5"
log = "0.4"
reqwest = { version = "0.12", default-features = false, features = ["json", "multipart"] }
serde_json = "1"
