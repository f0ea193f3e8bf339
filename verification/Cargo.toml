[package]
name = "registration"
version = "0.1.0"
edition = "2021"
publish = false

[dependencies]
axum = "=0.8.9"
hyper = "=1.12.0"
serde = { version = "=1.0.229", features = ["derive"] }
serde_json = "=1.0.151"
tokio = { version = "=1.53.2", features = ["full"] }
utoipa = "=6.0.0"
utoipa-swagger-ui = { version = "=10.0.1", features = ["axum", "vendored"] }
