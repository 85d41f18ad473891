[package]
name = "push_core"
version = "0.1.0"
edition = "2021"
publish = false

[dependencies]
openssl = "*"
isahc = "*"
serde = { version = "*", features = ["derive"] }
serde_json = "*"
