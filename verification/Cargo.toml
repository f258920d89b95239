[package]
name = "hugill"
version = "0.1.0"
edition = "2021"
publish = false

[dependencies]
percent-encoding = "2"
serde = { version = "1", features = ["derive"] }
serde_json = "1"
kube = "0.98"
k8s-openapi = { version = "0.24", features = ["latest"] }
tokio = { version = "1", features = ["time"] }
