[package]
name = "pasaka"
version = "1.0.0"
edition = "2021"
publish = false

[dependencies]
argon2 = { version = "=0.5.3", features = ["std"] }
password-hash = { version = "=0.5.0", features = ["getrandom"] }
uuid = { version = "=1.27.0", features = ["v4"] }
axum = "*"
tokio = { version = "*", features = ["rt-multi-thread", "macros", "net"] }
sqlx = { version = "*", features = ["runtime-tokio", "postgres", "chrono"], default-features = false }
serde = { version = "*", features = ["derive"] }
serde_json = "*"
chrono = { version = "*", features = ["serde", "clock"] }
dotenvy = "*"
tower-http = { version = "*", features = ["cors"] }
utoipa = { version = "*", features = ["axum_extras"] }
utoipa-swagger-ui = { version = "*", features = ["axum"] }
