[package]
name = "sonarr-operator"
version = "0.1.0"
edition = "2021"
publish = false

[dependencies]
k8s-openapi = { version = "=0.29.0", features = ["latest", "schemars"] }
kube = { version = "=5.0.0", features = ["runtime", "derive"] }
tokio = { version = "=1.54.1", features = ["macros", "rt-multi-thread", "sync"] }
futures = "=0.3.34"
serde = { version = "=1.0.229", features = ["derive"] }
serde_json = "=1.0.154"
serde_yaml = "=0.9.34"
schemars = "=1.2.3"
thiserror = "=2.0.21"
tracing = "=0.1.44"
tracing-subscriber = { version = "=0.3.23", features = ["env-filter", "json"] }
anyhow = "=1.0.104"
rustls = { version = "=0.23.46", default-features = false, features = ["ring", "std"] }
sonarr = "=0.1.1"
