[package]
name = "rustify"
version = "0.6.1"
edition = "2021"
publish = false

[dependencies]
anyhow = "1"
async-trait = "0.1"
bytes = "1"
http = "1"
reqwest = { version = "0.12", default-features = false, features = ["blocking"] }
reqwest-middleware = "0.4"
serde = "1"
serde_json = "1"
serde_urlencoded = "0.7"
thiserror = "1"
url = "2"
