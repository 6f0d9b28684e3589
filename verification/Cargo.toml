[package]
name = "git_issue_flow"
version = "0.1.0"
edition = "2021"
publish = false

[dependencies]
anyhow = "=1.0.104"
clap = { version = "=4.6.7", features = ["derive"] }
colored = "=3.1.1"
dialoguer = "=0.12.0"
dirs = "=7.0.0"
git2 = "=0.21.0"
octocrab = "=0.44.1"
serde = { version = "=1.0.229", features = ["derive"] }
serde_json = "=1.0.151"
tokio = { version = "=1.53.2", features = ["macros", "rt-multi-thread"] }
