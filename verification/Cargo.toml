[package]
name = "notion_api_client"
version = "0.1.0"
edition = "2021"
publish = false

[dependencies]
serde_json = "1"
ureq = "2"
tracing = "0.1"
