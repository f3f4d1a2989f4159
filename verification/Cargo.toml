[package]
name = "pic_store_bootstrap"
version = "0.1.0"
edition = "2021"
publish = false

[dependencies]
anyhow = "=1.0.104"
base64 = "=0.13.1"
clap = { version = "=4.6.7", features = ["derive", "env"] }
glob = "=0.3.4"
liquid = "=0.25.1"
serde_json = "=1.0.151"
sha2 = "=0.11.0"
