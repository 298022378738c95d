[package]
name = "ds1302"
version = "0.1.0"
edition = "2021"
publish = false

[dependencies]
anyhow = "1"
embedded-hal = "*"
embedded-svc = "*"
esp-idf-hal = "*"
esp-idf-svc = "*"
serde = { version = "1", features = ["derive"] }
