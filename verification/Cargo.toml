[package]
name = "presentations"
version = "0.1.0"
edition = "2021"
publish = false

[dependencies]
roxmltree = "*"
zip = { version = "*", default-features = false, features = ["deflate"] }
serde = { version = "1", features = ["derive"] }
axum = { version = "*", features = ["ws"] }
tokio = { version = "1", features = ["full"] }
tokio-stream = { version = "0.1", features = ["fs"] }
tower-http = { version = "*", features = ["cors", "fs"] }
notify = "*"
ordermap = "*"
sysinfo = "*"
