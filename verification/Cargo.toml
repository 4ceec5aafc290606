[package]
name = "k7s"
version = "0.5.0"
edition = "2021"
publish = false

[dependencies]
anyhow = "=1.0.104"
chrono = "=0.4.45"
crossterm = "0.28"
k8s-openapi = { version = "0.24", features = ["latest"] }
kube = "0.99"
ratatui = "0.29"
serde = "=1.0.229"
tokio = { version = "=1.54.1", features = ["macros", "rt-multi-thread"] }
