[package]
name = "shylock"
version = "0.1.0"
edition = "2021"
publish = false

[dependencies]
scraper = "=0.29.0"
chrono = { version = "=0.4.45", default-features = false, features = ["std", "serde"] }
rust_decimal = "=1.43.0"
serde = { version = "=1.0.229", features = ["derive"] }
serde_json = "=1.0.154"
num-format = "=0.4.4"
substring = "=1.4.5"
ciborium = "=0.2.2"
rmp-serde = "=1.3.1"
geo-types = { version = "=0.7.20", features = ["serde"] }
regex = "=1.13.1"
