[package]
name = "rust_web_dev"
version = "0.1.0"
edition = "2021"
publish = false

[dependencies]
rust-argon2 = "=3.0.0"
paseto = "=2.0.2"
rand = "=0.10.3"
serde_json = "=1.0.151"
serde = { version = "*", features = ["derive"] }
tokio = { version = "*", features = ["macros", "rt-multi-thread", "time"] }
warp = { version = "=0.4.3", features = ["server"] }
reqwest = { version = "*", default-features = false, features = ["json", "rustls-tls"] }
reqwest-middleware = "*"
reqwest-retry = "*"
sqlx = { version = "*", default-features = false, features = ["runtime-tokio-rustls", "postgres", "migrate"] }
clap = { version = "*", features = ["derive"] }
dotenvy = "*"
tracing = "*"
tracing-subscriber = { version = "*", features = ["env-filter"] }
chrono = "*"
