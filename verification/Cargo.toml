[package]
name = "tickwire"
version = "0.1.0"
edition = "2021"
publish = false

[dependencies]
anyhow = "1"
chrono = "0.4"
core_affinity = "*"
csv = "1"
serde = { version = "1", features = ["derive"] }
