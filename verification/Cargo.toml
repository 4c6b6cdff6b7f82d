[package]
name = "rurl_shortener"
version = "0.1.0"
edition = "2021"
publish = false

[dependencies]
url = "*"
rand = "*"
serde = { version = "*", features = ["derive"] }
serde_json = "*"
axum = "*"
axum-macros = "*"
tokio = { version = "*", features = ["rt-multi-thread", "macros", "net", "sync", "time"] }
reqwest = { version = "*", default-features = false, features = ["json"] }
redis = { version = "*", features = ["tokio-comp"] }
log = "*"
env_logger = "*"
lazy_static = "*"
prometheus = "*"
maplit = "*"
