[package]
name = "apub_receive"
version = "0.1.0"
edition = "2021"
publish = false

[dependencies]
activitystreams = "0.7.0-alpha.11"
async-trait = "0.1"
serde = { version = "1", features = ["derive"] }
serde_json = "1"
url = "2"
