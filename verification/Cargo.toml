[package]
name = "swap_core"
version = "0.1.0"
edition = "2021"
publish = false

[dependencies]
serde = { version = "*", features = ["derive"] }
serde_json = "*"
postcard = { version = "*", features = ["alloc"] }
futures = "*"
