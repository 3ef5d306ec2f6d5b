[package]
name = "beta_bot"
version = "0.1.0"
edition = "2021"
publish = false

[dependencies]
colored = "2"
ctrlc = "3"
dotenv = "0.15"
env_logger = "0.11"
figment = { version = "0.10", features = ["json"] }
log = "0.4"
poise = "0.6"
reqwest = { version = "0.12", default-features = false, features = ["json", "rustls-tls"] }
serde = { version = "1", features = ["derive"] }
serde_json = "1"
tokio = { version = "1", features = ["macros", "rt-multi-thread"] }
