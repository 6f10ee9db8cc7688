[package]
name = "qa_web_app"
version = "0.1.0"
edition = "2021"
publish = false

[dependencies]
log = "0.4"
log4rs = "1"
reqwest = { version = "0.11", default-features = false, features = ["json", "rustls-tls"] }
serde = { version = "1", features = ["derive"] }
serde_json = "1"
sqlx = { version = "0.7", default-features = false, features = ["runtime-tokio-rustls", "postgres", "migrate"] }
tokio = { version = "1", features = ["full"] }
uuid = { version = "1", features = ["v4"] }
warp = { version = "0.3", default-features = false }
