[package]
name = "soundcloud_stats"
version = "0.1.0"
edition = "2021"
publish = false

[dependencies]
dotenv = "0.15"
pyo3 = { version = "0.20", features = ["extension-module"] }
reqwest = { version = "0.11", features = ["blocking", "json"] }
serde = { version = "1", features = ["derive"] }
