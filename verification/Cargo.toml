[package]
name = "mcpacker"
version = "0.1.0"
edition = "2021"
publish = false

[dependencies]
anyhow = "1"
chrono = "0.4"
clap = { version = "4", features = ["derive"] }
console = "0.15"
directories = "5"
futures = "0.3"
hex = "0.4"
indicatif = "0.17"
json5 = "0.4"
reqwest = { version = "0.12", default-features = false, features = ["rustls-tls", "cookies", "stream", "json", "http2", "charset"] }
serde = { version = "1", features = ["derive"] }
serde_json = "1"
sha1 = "0.10"
sha2 = "0.10"
tokio = { version = "1", features = ["full"] }
toml = "0.8"
urlencoding = "2"
zip = { version = "2", default-features = false, features = ["deflate"] }
