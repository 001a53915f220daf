[package]
name = "tooldispatch"
version = "0.1.0"
edition = "2021"
publish = false

[dependencies]
serde = { version = "=1.0.229", features = ["derive"] }
serde_json = "=1.0.151"
reqwest = { version = "=0.13.5", default-features = false, features = ["json", "blocking", "query"] }
tokio = { version = "=1.53.2", features = ["macros", "rt-multi-thread"] }
chrono = "=0.4.45"
anyhow = "=1.0.104"
mcp-sdk = "=0.0.3"
