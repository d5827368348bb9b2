[package]
name = "rest_client"
version = "0.1.0"
edition = "2021"
publish = false

[dependencies]
async-trait = "0.1"
reqwest = { version = "0.12", default-features = false, features = ["json"] }
serde = "1"
serde_json = "1"
