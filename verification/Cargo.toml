[package]
name = "privatewhisper"
version = "0.1.0"
edition = "2021"
publish = false

[dependencies]
anyhow = "=1.0.104"
directories = "=5.0.1"
env_logger = "=0.11.11"
log = "=0.4.35"
parakeet-rs = { version = "=0.4.4", default-features = false, features = ["cuda", "load-dynamic", "api-28"] }
reqwest = { version = "=0.12.28", default-features = false, features = ["blocking", "rustls-tls"] }
serde = { version = "=1.0.229", features = ["derive"] }
toml = "=0.8.23"
zip = { version = "=2.6.1", default-features = false, features = ["deflate"] }
