[package]
name = "aish"
version = "0.1.0"
edition = "2021"
publish = false

[dependencies]
anyhow = "1"
clap = { version = "4", features = ["derive"] }
colored = "2"
dirs = "5"
dotenv = "0.15"
inquire = "0.7"
regex = "1"
reqwest = { version = "0.12", default-features = false, features = ["json", "rustls-tls"] }
serde = { version = "1", features = ["derive"] }
serde_json = "1"
termimad = "*"
tokio = { version = "1", features = ["full"] }
toml = "0.8"
