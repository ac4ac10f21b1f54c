[package]
name = "workshop_transfer"
version = "0.1.0"
edition = "2021"
publish = false

[dependencies]
reqwest = "=0.12.28"
scraper = "=0.29.0"
serde = { version = "=1.0.229", features = ["derive"] }
serde_json = "=1.0.154"
tokio = { version = "=1.54.1", features = ["macros", "rt-multi-thread"] }
