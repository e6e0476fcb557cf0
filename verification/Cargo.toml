[package]
name = "xint"
version = "0.1.0"
edition = "2021"
publish = false

[dependencies]
chrono = "=0.4.45"
crossterm = "=0.29.0"
reqwest = { version = "=0.13.5", default-features = false, features = ["blocking"] }
serde_json = "*"
