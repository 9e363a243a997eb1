[package]
name = "paste_gateway"
version = "0.1.0"
edition = "2021"
publish = false

[dependencies]
axum = "=0.7.9"
pastemd = { version = "=0.6.0", features = ["postgres"] }
sauropod = "=0.1.2"
serde = { version = "1", features = ["derive"] }
serde_json = "1"
tower-http = { version = "=0.5.2", features = ["fs"] }
