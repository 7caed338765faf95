[package]
name = "shortid"
version = "0.1.0"
edition = "2021"
publish = false

[dependencies]
failure = "0.1"

[dev-dependencies]
uuid = { version = "0.8", features = ["v1"] }
