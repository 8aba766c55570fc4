[package]
name = "websii"
version = "0.2.1"
edition = "2021"
publish = false

[dependencies]
mime_guess = "2"
axum = "0.7"
tokio = { version = "1", features = ["full"] }
futures = "0.3"
notify = "6"
serde = { version = "1", features = ["derive"] }
reqwest = { version = "0.12", default-features = false, features = ["json"] }
ratatui = "0.28"
crossterm = "0.28"
chrono = "0.4"
