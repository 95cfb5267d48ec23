[package]
name = "swampbot"
version = "0.1.0"
edition = "2021"
publish = false

[dependencies]
colored = "2"
dotenv = "0.15"
poise = "0.6"
reqwest = { version = "0.11", default-features = false, features = ["json", "rustls-tls"] }
serde = { version = "1", features = ["derive"] }
serde_json = "1"
tokio = { version = "1", features = ["macros", "rt-multi-thread"] }
