[package]
name = "chain_gateway"
version = "0.1.0"
edition = "2021"
publish = false

[dependencies]
actix-web = "*"
dotenv = "*"
reqwest = { version = "*", default-features = false, features = ["json", "rustls-tls"] }
serde = { version = "*", features = ["derive"] }
serde_json = "*"
solana-sdk = "*"
tokio = { version = "*", features = ["rt"] }
