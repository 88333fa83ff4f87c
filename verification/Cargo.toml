[package]
name = "paddler"
version = "0.1.0"
edition = "2021"
publish = false

[dependencies]
anyhow = "=1.0.104"
async-trait = "=0.1.92"
bytes = "=1.12.1"
dashmap = "=6.2.1"
log = "=0.4.35"
pingora = { version = "=0.9.1", default-features = false, features = ["proxy"] }
regex = "=1.13.1"
serde = { version = "=1.0.229", features = ["derive"] }
serde_json = "=1.0.154"
tokio = { version = "=1.54.1", features = ["sync", "rt", "macros", "time"] }
