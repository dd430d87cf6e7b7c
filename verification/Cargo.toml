[package]
name = "chess_games"
version = "0.1.0"
edition = "2021"
publish = false

[dependencies]
pleco = "=0.5.0"
uuid = "=1.29.0"
askama = "*"
axum = "0.8"
serde = { version = "1", features = ["derive"] }
serde_json = "1"
shuttle-axum = "0.57"
shuttle-runtime = "0.57"
shuttle-shared-db = { version = "0.57", features = ["postgres", "sqlx"] }
sqlx = { version = "0.8", default-features = false, features = ["runtime-tokio", "postgres", "uuid", "time", "derive", "migrate"] }
thiserror = "*"
time = "*"
tokio = { version = "1", features = ["full"] }
tokio-stream = { version = "*", features = ["sync"] }
tower-http = { version = "*", features = ["fs"] }
tracing = "0.1"
