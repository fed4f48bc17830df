[package]
name = "run"
version = "0.1.0"
edition = "2021"
publish = false

[dependencies]
clap = { version = "*", features = ["derive"] }
reqwest = { version = "*", default-features = false }
scraper = "*"
thiserror = "*"
tokio = { version = "*", features = ["full"] }
