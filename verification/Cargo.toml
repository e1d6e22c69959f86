[package]
name = "webtoon"
version = "0.10.0"
edition = "2021"
publish = false

[dependencies]
scraper = "*"
regex = "*"
chrono = { version = "*", default-features = false, features = ["std", "alloc"] }
html-escape = "*"
url = "*"
serde = { version = "1", features = ["derive"] }
serde_json = "1"
reqwest = { version = "*", default-features = false }
tokio = { version = "1", features = ["time", "rt", "macros"] }
futures = "*"
parking_lot = "*"
fastrand = "*"
