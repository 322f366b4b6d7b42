[package]
name = "hastepilot"
version = "0.1.0"
edition = "2021"
publish = false

[dependencies]
axum = "=0.8.9"
bollard = "=0.19.4"
chrono = { version = "=0.4.45", features = ["serde"] }
nanoid = "=0.4.0"
serde = { version = "1", features = ["derive"] }
sqlx = { version = "=0.8.6", default-features = false, features = ["runtime-tokio", "sqlite", "chrono", "derive"] }
tokio = { version = "=1.54.1", features = ["full"] }
tower_governor = "=0.8.0"
utoipa = { version = "=5.5.0", features = ["chrono"] }
utoipa-scalar = { version = "=0.3.0", features = ["axum"] }
