[package]
name = "warp_server_boilerplate"
version = "0.1.0"
edition = "2021"
publish = false

[dependencies]
chrono = "0.4"
rust-argon2 = "0.8"
rand = "0.8"
unicode-segmentation = "1"
uuid = { version = "0.8", features = ["v4"] }
validator = "0.14"
warp = "0.3"
tokio = { version = "1", features = ["macros", "rt-multi-thread", "sync"] }
sqlx = { version = "0.7", default-features = false, features = ["runtime-tokio", "postgres"] }
tracing = "0.1"
