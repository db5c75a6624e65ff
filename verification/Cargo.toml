[package]
name = "rmcp_server_builder"
version = "0.1.0"
edition = "2021"
publish = false

[dependencies]
rmcp = { version = "*", features = ["server"] }
