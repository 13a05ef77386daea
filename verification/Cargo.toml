[package]
name = "mostro_cli"
version = "0.1.0"
edition = "2021"
publish = false

[dependencies]
anyhow = "*"
chrono = "*"
comfy-table = "*"
dotenvy = "*"
lightning-invoice = "=0.34.1"
lnurl-rs = { version = "=0.10.0", default-features = false }
log = "*"
mostro-core = "=0.17.3"
nostr-sdk = "=0.45.4"
rand = "0.8"
serde = { version = "*", features = ["derive"] }
serde_json = "*"
tokio = { version = "*", features = ["macros", "rt-multi-thread", "time", "sync"] }
uuid = { version = "=1.27.0", features = ["v4"] }
