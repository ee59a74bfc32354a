[package]
name = "contrib_notify"
version = "0.1.0"
edition = "2021"
publish = false

[dependencies]
chrono = "*"
dotenvy = "*"
reqwest = { version = "*", default-features = false }
rocket = { version = "*", features = ["json"] }
serde = { version = "*", features = ["derive"] }
serde_json = "*"
tokio = { version = "*", features = ["macros", "rt-multi-thread", "time"] }
