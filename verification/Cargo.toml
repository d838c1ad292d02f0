[package]
name = "agent_core"
version = "0.1.0"
edition = "2021"
publish = false

[dependencies]
anthropic = "*"
anyhow = "1"
colored = "*"
dotenvy = "*"
reqwest = "*"
rustyline = "*"
serde = { version = "1", features = ["derive"] }
serde_json = "1"
tokio = { version = "1", features = ["rt-multi-thread", "macros", "time"] }
urlencoding = "*"
