[package]
name = "controller"
version = "0.1.0"
edition = "2021"
publish = false

[dependencies]
chrono = "*"
pulldown-cmark = "*"
kube = { version = "*", default-features = false, features = ["client", "runtime", "derive"] }
k8s-openapi = { version = "*", features = ["latest"] }
serde = { version = "*", features = ["derive"] }
serde_json = "*"
schemars = "*"
thiserror = "*"
tokio = { version = "*", features = ["macros", "rt-multi-thread"] }
futures = "*"
tracing = "*"
