[package]
name = "choretle"
version = "0.1.0"
edition = "2021"
publish = false

[dependencies]
anyhow = "1"
async-std = { version = "1", features = ["attributes"] }
async-trait = "0.1"
bson = "1.2"
mongodb = { version = "1.2", default-features = false, features = ["async-std-runtime"] }
serde = { version = "1", features = ["derive"] }
serde_json = "1"
tide = "0.16"
