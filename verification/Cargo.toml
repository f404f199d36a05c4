[package]
name = "tool_bridge"
version = "0.1.0"
edition = "2021"
publish = false

[dependencies]
async-openai = { version = "=0.42.2", features = ["chat-completion"] }
derive_more = { version = "=2.1.1", features = ["display", "from"] }
dotenv = "=0.15.0"
rpc-router = "=0.1.3"
serde = { version = "=1.0.229", features = ["derive"] }
serde_json = "=1.0.154"
tokio = { version = "=1.54.1", features = ["macros", "rt", "time"] }
