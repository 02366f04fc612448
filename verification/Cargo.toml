[package]
name = "rusty_shorty"
version = "0.1.0"
edition = "2021"
publish = false

[dependencies]
cjtoolkit-structured-validator = { version = "=0.5.4", features = ["url"] }
regex = "=1.13.1"
uuid = { version = "=1.29.1", features = ["v4"] }
paspio = "=1.0.0"
poem = { version = "=3.1.12", features = ["i18n", "session", "csrf", "cookie", "embed"] }
maud = "=0.27.0"
rust-embed = "=8.13.0"
rusqlite = "=0.41.1"
tokio = { version = "=1.54.1", features = ["rt-multi-thread", "macros", "sync"] }
serde = { version = "=1.0.229", features = ["derive"] }
chrono = "=0.4.45"
thiserror = "=2.0.21"
error-stack = "=0.8.0"
