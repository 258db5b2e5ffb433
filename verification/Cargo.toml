[package]
name = "avatar_gateway"
version = "0.1.0"
edition = "2021"
publish = false

[dependencies]
resvg = "*"
axum = "0.8"
reqwest = { version = "0.12", default-features = false, features = ["rustls-tls"] }
tokio = { version = "1", features = ["macros", "rt-multi-thread", "net"] }
