[package]
name = "customer_care"
version = "0.1.0"
edition = "2021"
publish = false

[dependencies]
jsonwebtoken = { version = "=11.1.0", features = ["rust_crypto"] }
serde_json = "=1.0.151"
serde = { version = "*", features = ["derive"] }
chrono = "*"
warp = { version = "=0.4.3", features = ["server"] }
tokio = { version = "*", features = ["macros", "rt-multi-thread"] }
sqlx = { version = "=0.9.0", default-features = false, features = ["runtime-tokio", "postgres"] }
reqwest = { version = "*", default-features = false, features = ["json"] }
tracing = "*"
tracing-subscriber = { version = "*", features = ["env-filter"] }
