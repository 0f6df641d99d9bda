[package]
name = "pullrequest"
version = "0.1.0"
edition = "2021"
publish = false

[dependencies]
anthropic = "*"
anyhow = "1"
colored = "2"
dotenv = "0.15"
indicatif = "0.17"
tokio = { version = "1", features = ["full"] }
