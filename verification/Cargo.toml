[package]
name = "enma"
version = "0.1.0"
edition = "2021"
publish = false

[dependencies]
chrono = "0.4"
once_cell = "1"
regex = "1"
reqwest = { version = "0.12", features = ["json", "gzip", "brotli", "deflate"] }
scraper = "*"
serde = { version = "1", features = ["derive"] }
thiserror = "*"
urlencoding = "2"

[dev-dependencies]
serde_json = "1"
