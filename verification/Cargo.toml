[package]
name = "demo_routes"
version = "0.1.0"
edition = "2021"
publish = false

[dependencies]
axum = "0.5"
base64 = "0.13"
tokio = { version = "1", features = ["macros", "rt-multi-thread", "signal"] }
