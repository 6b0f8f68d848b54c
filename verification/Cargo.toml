[package]
name = "hop_server"
version = "0.1.0"
edition = "2021"
publish = false

[dependencies]
anyhow = "=1.0.104"
argon2 = "=0.5.3"
chrono = "=0.4.45"
clap = { version = "=4.6.7", features = ["derive"] }
cookie = "=0.18.2"
form_urlencoded = "=1.2.2"
glob = "=0.3.4"
nucleo-matcher = "=0.3.1"
rand = "=0.8.8"
ratatui = { version = "=0.29.0", default-features = false }
russh = "*"
serde = { version = "=1.0.229", features = ["derive"] }
serde_json = "=1.0.154"
sha2 = "=0.10.9"
subtle = "=2.6.1"
termwiz = "=0.23.3"
tokio = { version = "=1.54.1", features = ["sync", "rt-multi-thread", "macros", "io-util", "time"] }
