[package]
name = "moat"
version = "0.1.0"
edition = "2021"
publish = false

[dependencies]
owo-colors = "4"
anyhow = "1"
clap = { version = "4", features = ["derive"] }
futures = "0.3"
reqwest = { version = "0.12", default-features = false, features = ["json", "rustls-tls"] }
serde = { version = "1", features = ["derive"] }
serde_json = "1"
serde_yaml = "0.9"
terminal_size = "0.4"
tokio = { version = "1", features = ["macros", "rt-multi-thread"] }
toml = "0.8"
self_update = { version = "0.42", default-features = false, features = ["rustls", "archive-tar", "compression-flate2"] }
