[package]
name = "corriere_news"
version = "0.1.0"
edition = "2021"
publish = false

[dependencies]
scraper = "*"
ego-tree = "*"
chrono = "*"
axum = "*"
tokio = { version = "*", features = ["rt-multi-thread", "macros", "net"] }
reqwest = { version = "*", default-features = false }
serde = { version = "*", features = ["derive"] }
tower-http = { version = "*", features = ["cors", "fs"] }
