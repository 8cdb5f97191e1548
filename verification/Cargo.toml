[package]
name = "alpaca_api"
version = "0.1.0"
edition = "2021"
publish = false

[dependencies]
bytes = "*"
http = "*"
log = "*"
reqwest = { version = "*", default-features = false, features = ["blocking", "rustls-tls"] }
serde = { version = "*", features = ["derive"] }
serde_json = "*"
serde_urlencoded = "*"
thiserror = "*"
url = "*"
