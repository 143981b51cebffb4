[package]
name = "server_status"
version = "0.1.0"
edition = "2021"
publish = false

[dependencies]
elytra-ping = "*"
serde = { version = "1", features = ["derive"] }
serenity = { version = "0.12", default-features = false, features = ["builder", "client", "gateway", "http", "model", "utils", "rustls_backend"] }
tokio = { version = "1", features = ["macros", "rt-multi-thread", "time"] }
toml = "*"
