[package]
name = "comic_catalog"
version = "0.1.0"
edition = "2021"
publish = false

[dependencies]
scraper = "*"
fuzzywuzzy = "*"
reqwest = { version = "*", default-features = false, features = ["blocking", "default-tls"] }
inquire = "*"
cli-table = "*"
serde = { version = "*", features = ["derive"] }
