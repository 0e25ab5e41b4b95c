[package]
name = "pipe2moq"
version = "0.1.0"
edition = "2021"
rust-version = "1.95"
publish = false

[dependencies]
anyhow = "=1.0.104"
bytes = "=1.12.1"
clap = { version = "=4.6.7", features = ["derive"] }
clap_complete = "=4.6.11"
figment2 = { version = "=0.11.5", features = ["toml", "env"] }
gstreamer = "=0.25.4"
gstreamer-app = "=0.25.2"
kstring = "=2.0.0"
moq-native = "=0.12.2"
serde = { version = "=1.0.229", features = ["derive"] }
tokio = { version = "=1.54.1", features = ["rt-multi-thread", "macros", "sync"] }
tracing = "=0.1.44"
tracing-subscriber = { version = "=0.3.23", features = ["env-filter"] }
url = "=2.5.8"
