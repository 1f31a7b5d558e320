[package]
name = "stever"
version = "0.1.0"
edition = "2021"
publish = false

[dependencies]
anyhow = "=1.0.104"
argh = "=0.1.19"
console = "=0.15.11"
dashmap = "=5.5.3"
dialoguer = { version = "=0.10.4", features = ["completion"] }
everscale-crypto = "=0.1.4"
public-ip = "0.2"
rand = "=0.8.8"
reqwest = { version = "=0.11.27", default-features = false }
thiserror = "=1.0.69"
tokio = { version = "=1.54.1", features = ["process", "rt", "rt-multi-thread", "sync", "time"] }
