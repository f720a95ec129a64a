[package]
name = "hypergate"
version = "0.1.0"
edition = "2021"
publish = false

[dependencies]
hyper = { version = "=1.12.0", features = ["full"] }
hyper-util = { version = "*", features = ["full"] }
http-body-util = "*"
iptools = "=0.5.0"
tokio = { version = "*", features = ["full"] }
tower = { version = "*", features = ["util"] }
tower-http = { version = "*", features = ["cors"] }
clap = "*"
uuid = { version = "*", features = ["v4"] }
chrono = "*"
kafka = { version = "*", default-features = false }
serde = { version = "*", features = ["derive"] }
serde_json = "*"
serde_yaml = "=0.9.34"
openapiv3 = "=1.0.4"
walkdir = "*"
