[package]
name = "bszet"
version = "0.1.0"
edition = "2021"
publish = false

[dependencies]
anyhow = "1"
axum = "0.7"
clap = { version = "4", features = ["derive", "env"] }
http-body-util = "0.1"
once_cell = "1"
regex = "1"
reqwest = { version = "0.12", default-features = false, features = ["multipart"] }
select = "0.6"
sentry = { version = "*", default-features = false }
serde = { version = "1", features = ["derive"] }
serde_json = "1"
thirtyfour = "*"
time = { version = "0.3", features = ["parsing", "formatting"] }
tokio = { version = "1", features = ["rt-multi-thread", "macros", "sync", "time", "net", "fs"] }
tower-http = { version = "0.5", features = ["sensitive-headers", "trace", "validate-request", "auth"] }
tracing = "0.1"
tracing-subscriber = "0.3"
url = "2"
