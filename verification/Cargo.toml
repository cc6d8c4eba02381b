[package]
name = "girouette"
version = "0.1.0"
edition = "2021"
publish = false

[dependencies]
chrono = { version = "0.4", features = ["unstable-locales"] }
serde = { version = "1", features = ["derive"] }
serde_json = "1"
termcolor = "1"
