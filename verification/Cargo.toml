[package]
name = "ddns_updater"
version = "0.1.0"
edition = "2021"
publish = false

[dependencies]
anyhow = "1"
cloudflare = "*"
public-ip = "*"
tokio = { version = "1", features = ["macros", "rt-multi-thread"] }
