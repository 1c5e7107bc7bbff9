[package]
name = "aegl_bot"
version = "0.1.0"
edition = "2021"
publish = false

[dependencies]
chrono = "=0.4.45"
chrono-english = "0.1"
chrono-tz = "*"
regex = "=1.13.1"
procfs = { version = "=0.18.0", default-features = false }
serde = { version = "=1.0.229", features = ["derive"] }

[dev-dependencies]
thousands = "=0.2.0"
