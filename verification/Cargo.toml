[package]
name = "reverse_image_search"
version = "0.1.0"
edition = "2021"
publish = false

[dependencies]
anyhow = "1"
async-trait = "0.1"
base64 = "0.22"
bytes = "1"
chrono = "0.4"
dotenv = "0.15"
env_logger = "0.11"
html-escape = "0.2"
image = { version = "0.25", default-features = false, features = ["png", "jpeg"] }
log = "0.4"
regex = "1"
reqwest = { version = "0.12", features = ["json", "multipart", "cookies", "gzip", "deflate", "brotli"] }
reqwest_cookie_store = "0.8"
scraper = "0.20"
serde = { version = "1", features = ["derive"] }
serde_json = "1"
serde_urlencoded = "0.7"
thiserror = "1"
tokio = { version = "1", features = ["full"] }
url = "2"
