[package]
name = "blackjack"
version = "0.1.0"
edition = "2021"
publish = false

[dependencies]
ulid = "1"
serde = { version = "1", features = ["derive"] }
serde_json = "1"
thiserror = "2"
axum = { version = "0.8", features = ["ws"] }
tokio = { version = "1", features = ["sync", "rt", "macros"] }
tracing = "0.1"
utoipa = "5"
ratatui = "0.29"
crossterm = "0.28"
