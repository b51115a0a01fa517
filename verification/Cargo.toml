[package]
name = "oauth2_flow"
version = "0.1.0"
edition = "2021"
publish = false

[dependencies]
axum = { version = "*", default-features = false, features = ["query"] }
axum_session = { version = "*", default-features = false }
loco-rs = { version = "0.14", default-features = false }
serde = { version = "1", features = ["derive"] }
serde_json = "1"
tokio = { version = "1", default-features = false, features = ["sync"] }
tracing = { version = "0.1", default-features = false }
