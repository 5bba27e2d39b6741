[package]
name = "vyv"
version = "0.1.0"
edition = "2021"
publish = false

[dependencies]
keepawake = "=0.5.1"
rand = "0.8"
tokio = { version = "1", features = ["rt", "time", "macros", "sync"] }
tokio-util = "0.7"
serde = { version = "1", features = ["derive"] }
