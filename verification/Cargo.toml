[package]
name = "pastel_hn"
version = "0.1.0"
edition = "2021"
publish = false

[dependencies]
dirs = "=5.0.1"
futures = "=0.3.34"
hound = "=3.5.1"
moka = { version = "=0.12.16", features = ["future"] }
once_cell = "=1.21.4"
ort = { version = "=2.0.0-rc.15", default-features = false, features = ["load-dynamic"] }
readability = "=0.3.0"
regex = "=1.13.1"
reqwest = { version = "=0.12.28", default-features = false, features = ["json", "rustls-tls", "stream"] }
rodio = "=0.21.1"
serde = { version = "=1.0.229", features = ["derive"] }
serde_json = "=1.0.154"
thiserror = "=1.0.69"
tokio = { version = "=1.54.1", features = ["macros", "rt-multi-thread", "sync", "time"] }
tracing = "=0.1.44"
tracing-subscriber = { version = "=0.3.23", features = ["env-filter"] }
url = "=2.5.8"
urlencoding = "=2.1.3"
