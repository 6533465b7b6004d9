[package]
name = "postgres_backup"
version = "0.1.0"
edition = "2021"
publish = false

[dependencies]
chrono = "*"
zip = { version = "*", default-features = false }
clap = "*"

[dev-dependencies]
serde_json = "*"
