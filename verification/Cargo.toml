[package]
name = "twitch_opendeck"
version = "0.1.0"
edition = "2021"
publish = false

[dependencies]
chrono = "0.4"
log = "0.4"
openaction = "*"
reqwest = { version = "0.12", default-features = false, features = ["json", "rustls-tls"] }
serde = { version = "1", features = ["derive"] }
serde_json = "1"
simplelog = "*"
tokio = { version = "1", features = ["rt-multi-thread", "macros", "sync", "time"] }
