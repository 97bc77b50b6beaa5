[package]
name = "heuristics"
version = "0.1.0"
edition = "2021"
publish = false

[dependencies]
anyhow = "1"
log = "0.4"
scraper = "*"
uuid = { version = "1", features = ["v4"] }
