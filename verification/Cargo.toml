[package]
name = "panopticonbot"
version = "0.1.0"
edition = "2021"
publish = false

[dependencies]
tokio-util = "=0.7.20"
tokio = { version = "=1.54.1", features = ["rt-multi-thread", "macros", "signal", "time", "sync"] }
teloxide = { version = "=0.13.0", features = ["macros", "webhooks-axum"] }
# Not named in the code: teloxide-core depends on takecell, and takecell 0.1.2
# needs a newer compiler than the one this crate is built with.
takecell = "=0.1.1"
dptree = "=0.3.0"
sqlx = { version = "=0.8.6", default-features = false, features = ["runtime-tokio", "sqlite", "migrate"] }
redis = { version = "=0.27.6", default-features = false, features = ["tokio-comp"] }
config = { version = "=0.14.1", default-features = false }
dotenvy = "=0.15.7"
secrecy = { version = "=0.10.3", features = ["serde"] }
serde = { version = "=1.0.229", features = ["derive"] }
url = { version = "=2.5.8", features = ["serde"] }
thiserror = "=1.0.69"
tracing = "=0.1.44"
tracing-subscriber = "=0.3.23"
rand = "=0.8.8"
