[package]
name = "psmeter"
version = "0.1.0"
edition = "2021"
publish = false

[dependencies]
rusqlite = "=0.31.0"
r2d2 = "=0.8.10"
r2d2_sqlite = "=0.24.0"
chrono = "=0.4.45"
sha2 = "=0.10.9"
hex = "=0.4.3"
mime_guess = "=2.0.5"
serde = { version = "=1.0.229", features = ["derive"] }
serde_json = "=1.0.154"
axum = { version = "=0.7.9", features = ["ws"] }
tokio = { version = "=1.54.1", features = ["full"] }
tower-http = { version = "=0.5.2", features = ["cors"] }
rust-embed = { version = "=8.13.0", features = ["interpolate-folder-path"] }
tracing = "=0.1.44"
tracing-subscriber = { version = "=0.3.23", features = ["env-filter"] }
