[package]
name = "tes"
version = "0.1.0"
edition = "2021"
publish = false

[dependencies]
chrono = { version = "0.4", default-features = false, features = ["std"] }
url = "2"
reqwest = { version = "0.12", default-features = false }
tokio = { version = "1", default-features = false, features = ["rt", "time"] }
tracing = "0.1"
