[package]
name = "webhook_relay"
version = "0.1.0"
edition = "2021"
publish = false

[dependencies]
base64 = "0.13"
rand = "0.8"
rand_chacha = "0.3"
iso8601 = "*"
serde = { version = "1", features = ["derive"] }
serde_json = "1"
actix-web = { version = "4", features = ["rustls"] }
reqwest = { version = "0.11", default-features = false, features = ["json", "rustls-tls"] }
rustls = "0.20"
rustls-pemfile = "1"
