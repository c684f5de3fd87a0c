[package]
name = "neptune-apex"
version = "0.1.0"
edition = "2021"
publish = false

[dependencies]
embedded-nal-async = "*"
log = "0.4"
reqwless = { version = "*", default-features = false }
serde = { version = "1", features = ["derive"] }
serde_json = "1"
serde_repr = "0.1"
