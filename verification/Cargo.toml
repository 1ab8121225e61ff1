[package]
name = "bitbucket-api"
version = "0.1.0"
edition = "2021"
publish = false

[dependencies]
curl = "0.4"
log = "0.4"
serde = { version = "1", features = ["derive"] }
serde_derive = "1"
serde_json = "1"
url = "1.7"
