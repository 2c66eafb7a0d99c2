[package]
name = "tapplet_host"
version = "0.1.0"
edition = "2021"
publish = false

[dependencies]
tokio = { version = "*", features = ["full"] }
tokio-util = "*"
axum = "*"
tower-http = { version = "*", features = ["fs"] }
http = "*"
serde = { version = "*", features = ["derive"] }
serde_json = "*"
sqlx = { version = "*", default-features = false, features = ["runtime-tokio", "sqlite"] }
log = "*"

[dev-dependencies]
tower = { version = "*", features = ["util"] }
