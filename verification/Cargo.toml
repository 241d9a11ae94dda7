[package]
name = "git_ssh_server"
version = "0.1.0"
edition = "2021"
publish = false

[dependencies]
regex = "1"
russh = "*"
tokio = { version = "1", features = ["full"] }
serde = { version = "1", features = ["derive"] }
serde_yaml = "*"
chrono = "0.4"
