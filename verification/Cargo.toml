[package]
name = "cachegate"
version = "0.1.0"
edition = "2021"
publish = false

[dependencies]
anyhow = "=1.0.104"
async-trait = "=0.1.92"
axum = "=0.8.9"
base64 = "=0.22.1"
bytes = "=1.12.1"
bytesize = { version = "=2.7.0", features = ["serde"] }
clap = { version = "=4.6.7", features = ["derive"] }
ed25519-dalek = { version = "=2.2.0", features = ["rand_core"] }
foyer = { version = "=0.22.6", features = ["serde"] }
futures = "=0.3.34"
infer = "=0.22.0"
lru = "=0.19.0"
mime_guess = "=2.0.5"
mixtrics = { version = "=0.2.6", features = ["prometheus_0_14"] }
object_store = { version = "=0.14.2", features = ["aws", "azure"] }
prometheus = "=0.14.0"
rand = "=0.8.8"
sentry = { version = "=0.49.3", default-features = false, features = ["backtrace", "contexts", "panic", "reqwest", "rustls"] }
sentry-tracing = "=0.49.3"
serde = { version = "=1.0.229", features = ["derive"] }
serde_json = "=1.0.154"
serde_yaml = "0.9"
thiserror = "=2.0.21"
time = "=0.3.55"
tokio = { version = "=1.54.1", features = ["full"] }
tower-http = { version = "=0.6.11", features = ["trace"] }
tracing = "=0.1.44"
tracing-error = "=0.2.1"
tracing-subscriber = { version = "=0.3.23", features = ["env-filter"] }
