[package]
name = "reacher_backend"
version = "0.1.0"
edition = "2021"
publish = false

[dependencies]
anyhow = "1"
http = "1"
lapin = { version = "2", default-features = false }
reqwest = { version = "0.12", default-features = false, features = ["json"] }
serde = { version = "1", features = ["derive"] }
serde_json = "1"
sqlx = { version = "0.8", default-features = false, features = ["postgres", "runtime-tokio", "migrate", "json", "uuid"] }
thiserror = "1"
tokio = { version = "1", features = ["time", "rt", "net", "io-util", "macros"] }
tracing = "0.1"
uuid = { version = "1", features = ["serde", "v4"] }
warp = { version = "0.3", default-features = false }

[dev-dependencies]
csv = "1"
