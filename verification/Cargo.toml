[package]
name = "create_rust_plugin"
version = "0.1.0"
edition = "2021"
publish = false

[dependencies]
uuid = { version = "1", features = ["v4"] }
zellij-tile = "0.41"
