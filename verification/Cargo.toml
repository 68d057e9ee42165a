[package]
name = "sjmb"
version = "0.1.0"
edition = "2021"
publish = false

[dependencies]
regex = "*"
tera = { version = "*", default-features = false }
webpage = { version = "*", default-features = false }
chrono = "*"
chrono-tz = "*"
irc = { version = "*", default-features = false, features = ["ctcp", "toml_config", "tls-rust"] }
tokio = { version = "*", features = ["full"] }
futures = "*"
serde = { version = "*", features = ["derive"] }
serde_json = "*"
clap = { version = "*", features = ["derive"] }
anyhow = "*"
tracing = "*"
tracing-subscriber = "*"
shellexpand = "*"
sqlx = { version = "*", default-features = false, features = ["sqlite", "runtime-tokio"] }
reqwest = { version = "*", default-features = false, features = ["rustls-tls"] }
url = "*"
