[package]
name = "soulbook"
version = "0.1.0"
edition = "2021"
publish = false

[dependencies]
serde = { version = "=1.0.229", features = ["derive"] }
serde_json = { version = "=1.0.154", features = ["preserve_order"] }
dioxus = { version = "=0.7.10", features = ["web", "router"] }
gloo-storage = "=0.3.0"
gloo-net = { version = "=0.6.0", features = ["http", "json"] }
js-sys = "=0.3.107"
