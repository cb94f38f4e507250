[package]
name = "create_thread_tool"
version = "0.1.0"
edition = "2021"
publish = false

[dependencies]
agent-client-protocol = "=3.5.0"
anyhow = "=1.0.104"
schemars = "=1.2.3"
serde = { version = "=1.0.229", features = ["derive"] }
serde_json = "=1.0.154"
