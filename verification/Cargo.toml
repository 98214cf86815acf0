[package]
name = "openlibrary_provider"
version = "0.1.0"
edition = "2021"
publish = false

[dependencies]
anyhow = "1"
async-std = "1"
chrono = "0.4"
convert_case = "*"
scraper = "*"
serde = { version = "1", features = ["derive"] }
serde_json = "1"
surf = { version = "2", default-features = false, features = ["h1-client-rustls"] }
