[package]
name = "python_plugin"
version = "0.1.0"
edition = "2021"
publish = false

[dependencies]
extism-pdk = "0.3.4"
proto_pdk = "0.7"
serde = { version = "1", features = ["derive"] }
