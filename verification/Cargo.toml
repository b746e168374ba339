[package]
name = "issue_summarizer"
version = "0.1.0"
edition = "2021"
publish = false

[dependencies]
dotenv = "*"
flowsnet-platform-sdk = "*"
github-flows = "*"
llmservice-flows = "*"
log = "*"
serde_json = "*"
tokio = { version = "*", features = ["macros", "rt"] }
