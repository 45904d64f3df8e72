[package]
name = "simple_v2_sandwicher"
version = "0.1.0"
edition = "2021"
publish = false

[dependencies]
web3 = { version = "0.19", default-features = false, features = ["http", "signing"] }
ethers = { version = "2", default-features = false }
hex = "0.4"
serde = { version = "1", features = ["derive"] }
serde_json = "1"
anyhow = "1"
tokio = { version = "1", features = ["rt-multi-thread", "macros", "time"] }
dotenv = "0.15"
once_cell = "1"
dashmap = "5"
