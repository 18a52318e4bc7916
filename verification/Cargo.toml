[package]
name = "athena"
version = "0.1.0"
edition = "2021"
publish = false

[dependencies]
anyhow = "1"
axum = "0.7"
iced = { version = "0.13", default-features = false, features = ["tokio"] }
k8s-openapi = { version = "0.24", features = ["latest"] }
kube = { version = "0.98", features = ["client", "derive"] }
reqwest = { version = "0.12", default-features = false, features = ["json"] }
schemars = "0.8"
serde = { version = "1", features = ["derive"] }
serde_json = "1"
tokio = { version = "1", features = ["macros", "net", "rt-multi-thread"] }
tower-http = { version = "0.6", features = ["fs"] }
