[package]
name = "ctv_emulators"
version = "0.1.0"
edition = "2021"
publish = false

[dependencies]
rand = "=0.8.8"
sapio-base = "=0.2.4"
sapio-bitcoin = { version = "=0.28.2", features = ["use-serde"] }
sapio-miniscript = { version = "=7.0.1", features = ["compiler"] }
serde = { version = "=1.0.229", features = ["derive"] }
serde_json = "=1.0.154"
tokio = { version = "=1.54.1", features = ["net", "io-util", "rt", "sync"] }
