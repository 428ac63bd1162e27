[package]
name = "basable_core"
version = "0.1.0"
edition = "2021"
publish = false

[dependencies]
mysql = { version = "=28.0.3", default-features = false, features = ["minimal-rust"] }
uuid = { version = "=1.27.0", features = ["v4"] }
axum = "=0.7.9"
tower = "=0.5.3"
tower-http = { version = "=0.5.2", features = ["cors", "trace"] }
tracing = "=0.1.44"
