[package]
name = "photopipe"
version = "0.1.0"
edition = "2021"
publish = false

[dependencies]
rand = "0.8"
kamadak-exif = "*"
jiff = "*"
image = "*"
uuid = { version = "*", features = ["v4", "v7"] }
tokio = { version = "*", features = ["rt-multi-thread", "macros", "sync", "time", "net", "signal"] }
axum = { version = "*", features = ["multipart"] }
sqlx = { version = "*", default-features = false, features = ["runtime-tokio", "postgres", "uuid"] }
rust-s3 = { version = "*", default-features = false, features = ["tokio-rustls-tls"] }
reqwest = { version = "*", default-features = false, features = ["rustls-tls"] }
async-channel = "*"
serde = { version = "*", features = ["derive"] }
serde_json = "*"
