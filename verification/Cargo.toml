[package]
name = "jokebox"
version = "0.1.0"
edition = "2021"
publish = false

[dependencies]
ferris-says = "0.3"
reqwest = { version = "*", default-features = false }
serde_json = "1"
tokio = { version = "1", features = ["rt", "rt-multi-thread"] }
