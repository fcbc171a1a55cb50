[package]
name = "ship_game"
version = "0.1.0"
edition = "2021"
publish = false

[dependencies]
iter_tools = "*"
serde = { version = "*", features = ["derive"] }
serde_json = "*"
websocket = { version = "*", default-features = false, features = ["sync"] }
