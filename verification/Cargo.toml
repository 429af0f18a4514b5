[package]
name = "boilerkey"
version = "0.1.0"
edition = "2021"
publish = false

[dependencies]
libreauth = "=0.18.1"
reqwest = { version = "=0.13.5", features = ["query"] }
serde_json = { version = "=1.0.154", features = ["preserve_order"] }
tokio = { version = "=1.54.1", features = ["macros", "rt-multi-thread"] }
