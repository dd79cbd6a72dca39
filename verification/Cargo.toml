[package]
name = "tapo_gateway"
version = "0.1.0"
edition = "2021"
publish = false

[dependencies]
rand = "0.9"
tokio = { version = "*", features = ["full"] }
axum = "*"
axum-extra = { version = "*", features = ["typed-header"] }
tower-http = { version = "*", features = ["cors"] }
serde = { version = "*", features = ["derive"] }
serde_json = "*"
clap = { version = "*", features = ["derive", "env"] }
chrono = "*"
dirs = "*"
colored = "*"
log = "*"
anyhow = "*"
tapo = "*"
