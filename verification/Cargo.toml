[package]
name = "anvil-tera"
version = "0.1.0"
edition = "2021"
publish = false

[dependencies]
anvil = "*"
serde = { version = "1", features = ["derive"] }
tera = "1"

[dev-dependencies]
tempfile = "3"
