[package]
name = "deviceservice"
version = "0.1.0"
edition = "2021"
publish = false

[dependencies]
anyhow = "1"
blake2 = "0.9"
env_logger = "0.10"
hyper = { version = "0.14", features = ["server", "http1", "tcp"] }
k8s-openapi = { version = "0.20", features = ["v1_26"] }
kube = { version = "0.87", features = ["derive"] }
log = "0.4"
schemars = "0.8"
serde = { version = "1", features = ["derive"] }
serde_json = "1"
tokio = { version = "1", features = ["macros", "rt-multi-thread"] }
