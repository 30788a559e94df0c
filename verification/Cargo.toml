[package]
name = "magic_card_scraper"
version = "0.1.0"
edition = "2021"
publish = false

[dependencies]
urlencoding = "2"
url = "2"
serde = { version = "1", features = ["derive"] }
serde_json = "1"
csv = "1"
chrono = "0.4"
futures = "0.3"
tokio = { version = "1", default-features = false, features = ["rt", "macros", "sync"] }
reqwest = { version = "0.12", default-features = false }
scraper = "0.23"
