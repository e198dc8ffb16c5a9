[package]
name = "palantir"
version = "0.1.0"
edition = "2021"
publish = false

[dependencies]
tokio = { version = "=1.53.2", features = ["full"] }
sha2 = "=0.11.0"
uuid = { version = "=1.27.0", features = ["v5"] }
rand = "=0.10.3"
pot = "=3.0.1"
serde = { version = "=1.0.229", features = ["derive"] }
wtransport = { version = "=0.7.2", features = ["dangerous-configuration"] }
async-trait = "=0.1.92"
