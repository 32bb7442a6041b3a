[package]
name = "commit_policy"
version = "0.1.0"
edition = "2021"
publish = false

[dependencies]
anyhow = "1"
csv = "1"
gix = "*"
globset = "0.4"
serde = { version = "1", features = ["derive"] }
serde_json = "1"
