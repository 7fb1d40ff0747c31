[package]
name = "afrasyab"
version = "0.1.0"
edition = "2021"
publish = false

[dependencies]
url = "=2.5.8"
base64 = "=0.22.1"
aes-gcm = "=0.10.3"
mime_guess = "=2.0.5"
uuid = { version = "=1.29.0", features = ["v4"] }
serde = { version = "=1.0.229", features = ["derive"] }
serde_json = "=1.0.154"
anyhow = "=1.0.104"
thiserror = "=1.0.69"
tokio = { version = "=1.54.1", features = ["macros", "rt-multi-thread", "fs", "process", "time", "net", "signal", "io-util"] }
tracing = "=0.1.44"
tracing-subscriber = { version = "=0.3.23", features = ["env-filter"] }
async-trait = "=0.1.92"
futures-util = "=0.3.34"
reqwest = { version = "=0.12.28", default-features = false, features = ["stream", "rustls-tls"] }
teloxide = { version = "=0.13.0", default-features = false, features = ["macros", "ctrlc_handler", "webhooks-axum", "rustls"] }
sqlx = { version = "=0.8.6", default-features = false, features = ["runtime-tokio", "sqlite", "chrono", "uuid", "json", "macros", "migrate"] }
axum = "=0.7.9"
oauth2 = "=4.4.2"
chrono = { version = "=0.4.45", features = ["serde"] }
dotenvy = "=0.15.7"
dptree = "=0.3.0"
libc = "=0.2.191"
takecell = "=0.1.1"

[dev-dependencies]
regex = "1"
