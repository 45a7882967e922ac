[package]
name = "dlsite_manager"
version = "0.1.0"
edition = "2021"
publish = false

[dependencies]
anyhow = "1"
chrono = "=0.4.45"
futures = "0.3"
log = "0.4"
reqwest = { version = "=0.13.5", default-features = false, features = ["charset", "cookies", "form", "http2", "json", "native-tls"] }
reqwest_cookie_store = "=0.10.0"
rusqlite = { version = "=0.40.2", features = ["bundled"] }
scraper = "=0.29.0"
serde = { version = "1", features = ["derive"] }
serde_json = "1"
thiserror = "2"
tokio = { version = "1", features = ["full"] }
unrar = "=0.5.8"
url = "2"
zip-extract = "=0.4.1"
