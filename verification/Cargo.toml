[package]
name = "pokespeare"
version = "0.1.0"
edition = "2021"
publish = false

[dependencies]
chashmap = "2.2"
http = "1"
reqwest = { version = "0.12", default-features = false, features = ["rustls-tls"] }
serde = { version = "1", features = ["derive"] }
serde_json = "1"
tokio = { version = "1", features = ["macros", "rt-multi-thread"] }
url = "2"
warp = { version = "0.3", default-features = false }
