[package]
name = "line_messaging"
version = "0.1.0"
edition = "2021"
publish = false

[dependencies]
bytes = "*"
reqwest = { version = "*", default-features = false }
serde_json = "*"
