[package]
name = "book_lending"
version = "0.1.0"
edition = "2021"
publish = false

[dependencies]
uuid = { version = "1", features = ["v4"] }
sqlx = { version = "0.7", default-features = false, features = ["postgres", "runtime-tokio", "uuid"] }
axum = "0.7"
axum-extra = { version = "0.9", features = ["typed-header"] }
anyhow = "1"
derive-new = "0.7"
strum = { version = "0.26", features = ["derive"] }
