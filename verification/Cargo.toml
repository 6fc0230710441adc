[package]
name = "linkup"
version = "0.1.0"
edition = "2021"
publish = false

[dependencies]
serde_json = "=1.0.151"
url = "=2.5.8"
reqwest = { version = "=0.13.5", default-features = false, features = ["json"] }
tokio = { version = "=1.53.2", features = ["rt-multi-thread", "macros"] }
keyring = "=4.2.0"
