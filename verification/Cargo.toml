[package]
name = "notebot"
version = "0.1.0"
edition = "2021"
publish = false

[dependencies]
kv = "*"
ed25519-dalek = "1"
actix-web = "4"
serde = { version = "1", features = ["derive"] }
serde_repr = "0.1"
serde_json = "1"
reqwest = { version = "0.11", default-features = false, features = ["json"] }
chrono = "0.4"
dotenv = "0.15"
env_logger = "*"
log = "0.4"
futures-util = "0.3"
anyhow = "1"
thiserror = "1"
