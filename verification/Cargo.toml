[package]
name = "desfn"
version = "0.1.0"
edition = "2021"
publish = false

[dependencies]
erased-serde = "*"
serde = "1"
serde-value = "*"

[dev-dependencies]
serde_json = "1"
