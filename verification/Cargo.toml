[package]
name = "web_core"
version = "0.1.0"
edition = "2021"
publish = false

[dependencies]
anyhow = "=1.0.104"
dotenvy = "=0.15.7"
fred = "=8.0.6"
memchr = "=2.8.3"
moka = { version = "=0.12.16", features = ["future"] }
ntex = { version = "=1.2.1", features = ["tokio", "compress"] }
ntex-http = "=0.1.13"
once_cell = "=1.21.4"
rslock = "=0.3.0"
sailfish = "=0.8.3"
serde = { version = "=1.0.229", features = ["derive"] }
serde_json = "=1.0.154"
serde_urlencoded = "=0.7.1"
thiserror = "=1.0.69"
tokio = { version = "=1.54.1", features = ["time", "sync"] }
tracing = "=0.1.44"
tracing-subscriber = { version = "=0.3.23", features = ["env-filter"] }
utoipa = "=4.2.3"

[dev-dependencies]
regex = "=1.13.1"
