[package]
name = "resource_graph_db"
version = "0.1.0"
edition = "2021"
publish = false

[dependencies]
cozo = "=0.7.6"
serde_json = "=1.0.151"
anyhow = "*"
axum = "=0.8.9"
kube = "=3.1.0"
k8s-openapi = { version = "=0.27.1", features = ["latest"] }
serde = { version = "*", features = ["derive"] }
tokio = { version = "*", features = ["full"] }
tracing = "*"
tracing-subscriber = "*"
