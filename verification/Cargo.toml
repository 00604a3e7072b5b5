[package]
name = "patchwork"
version = "0.1.0"
edition = "2021"
publish = false

[dependencies]
anyhow = "1"
axum = "*"
dotenvy = "*"
kameo = "*"
reqwest = { version = "*", default-features = false, features = ["json"] }
sea-orm = { version = "*", default-features = false, features = ["sqlx-sqlite", "runtime-tokio", "macros", "with-json"] }
serde = { version = "1", features = ["derive"] }
serde_json = "1"
tokio = { version = "1", features = ["macros", "rt-multi-thread", "net", "signal"] }
