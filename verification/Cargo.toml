[package]
name = "skuffen_application"
version = "0.1.0"
edition = "2021"
publish = false

[dependencies]
uuid = { version = "1", features = ["v4", "v5", "v7"] }
chrono = { version = "0.4", default-features = false, features = ["clock", "std"] }
anyhow = "1"
tokio = { version = "1", features = ["rt", "time", "macros", "sync"] }
async-trait = "0.1"
