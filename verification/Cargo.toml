[package]
name = "ip2location"
version = "0.1.0"
edition = "2021"
publish = false

[dependencies]
memmap = "*"
serde = { version = "*", features = ["derive"] }
serde_json = "*"
serde_with = "*"
