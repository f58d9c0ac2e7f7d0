[package]
name = "catapulte"
version = "0.1.0"
edition = "2021"
publish = false

[dependencies]
anyhow = "1"
console_error_panic_hook = "0.1"
lettre = { version = "0.11", default-features = false, features = ["builder"] }
reqwest = { version = "0.12", default-features = false, features = ["rustls-tls"] }
send_wrapper = "0.6"
serde = { version = "1", features = ["derive"] }
serde_json = "1"
tokio = { version = "1", features = ["io-util"] }
uuid = { version = "1", features = ["v4", "v7"] }
worker = { version = "*", features = ["d1"] }
