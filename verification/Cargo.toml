[package]
name = "scheduler"
version = "0.1.0"
edition = "2021"
publish = false

[dependencies]
actix-cors = "0.7"
actix-web = { version = "4", default-features = false }
anyhow = "1"
chrono = "0.4"
dotenvy = "0.15"
ethers = { version = "2.0", default-features = false }
ethers-contract = { version = "2.0", default-features = false }
k256 = "0.13"
log = "0.4"
serde = { version = "1", features = ["derive"] }
serde_json = "1"
tokio = { version = "1", features = ["macros", "rt-multi-thread"] }
uuid = { version = "1", features = ["v4"] }
