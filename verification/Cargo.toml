[package]
name = "cluster_session"
version = "0.1.0"
edition = "2021"
publish = false

[dependencies]
http = "=1.5.0"
k8s-openapi = { version = "=0.28.0", features = ["latest"] }
kube = "=4.2.0"
serde = { version = "=1.0.229", features = ["derive"] }

[dev-dependencies]
tokio = { version = "=1.54.1", features = ["rt", "sync"] }
tower-test = "=0.4.0"
