[package]
name = "tmdbtag"
version = "0.1.4"
edition = "2021"
publish = false

[dependencies]
clap = { version = "4", features = ["derive"] }
dialoguer = "0.11"
reqwest = { version = "0.12", default-features = false, features = ["blocking", "rustls-tls"] }
serde = { version = "1", features = ["derive"] }
serde_json = "1"
thiserror = "2"
