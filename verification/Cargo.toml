[package]
name = "k8s-mcp"
version = "0.7.0"
edition = "2021"
publish = false

[dependencies]
anyhow = "1"
async-trait = "0.1"
clap = { version = "4", features = ["derive", "env"] }
comfy-table = "7"
dirs = "6"
either = "1"
futures = "0.3"
http = "1"
json-patch = "4"
k8s-openapi = { version = "0.27", features = ["latest"] }
kube = "3"
serde = { version = "1", features = ["derive"] }
serde_json = "1"
serde_yaml = "0.9"
thiserror = "2"
tokio = { version = "1", features = ["full"] }
tracing = "0.1"
tracing-subscriber = "0.3"
