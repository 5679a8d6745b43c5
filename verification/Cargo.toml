[package]
name = "guardian"
version = "0.1.0"
edition = "2021"
publish = false

[dependencies]
dotenv = "0.15"
log = "0.4"
reqwest = { version = "0.11", features = ["json"] }
sentry = "0.32"
serde = { version = "1", features = ["derive"] }
serde_json = "1"
tokio = { version = "1", features = ["macros", "rt-multi-thread", "time"] }
