[package]
name = "cow"
version = "0.1.0"
edition = "2021"
publish = false

[dependencies]
serenity = { version = "=0.10.10", features = ["unstable_discord_api"] }
tokio = { version = "=1.54.1", features = ["full"] }
reqwest = { version = "=0.11.27", default-features = false, features = ["json", "cookies", "rustls-tls"] }
log = "0.4"
env_logger = "=0.11.11"
chrono = "=0.4.45"
regex = "=1.13.1"
scraper = "=0.29.0"
serde = { version = "1", features = ["derive"] }
serde_json = "1"
rust_decimal = "=1.43.0"
num-traits = "0.2"
num-derive = "0.4"
bitflags = "1"
async-trait = "0.1"
tiberius = { version = "=0.12.3", features = ["rust_decimal", "chrono"] }
bb8 = "=0.9.1"
bb8-tiberius = "=0.16.0"
songbird = { version = "0.2", default-features = false, features = ["serenity-rustls", "gateway"] }
lavalink-rs = "*"
