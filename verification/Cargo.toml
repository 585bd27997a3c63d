[package]
name = "gbksync"
version = "0.1.0"
edition = "2021"
publish = false

[dependencies]
git2 = "*"
uuid = { version = "*", features = ["v4"] }
serde = { version = "*", features = ["derive"] }
serde_json = "*"
