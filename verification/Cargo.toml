[package]
name = "grok_search_rs"
version = "0.1.0"
edition = "2021"
publish = false

[dependencies]
url = "2"
serde = { version = "1", features = ["derive"] }
serde_json = "1"
toml = "0.8"
thiserror = "2"
anyhow = "1"
tokio = { version = "1", features = ["macros", "rt", "io-std", "io-util", "time"] }
reqwest = { version = "0.12", default-features = false, features = ["json", "gzip"] }
