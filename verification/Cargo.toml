[package]
name = "jin"
version = "0.1.0"
edition = "2021"
publish = false

[dependencies]
alloy = { version = "=1.8.3", default-features = false, features = ["std", "contract", "network", "provider-http", "reqwest", "signer-local"] }
anyhow = "1"
async-trait = "0.1"
hex = "0.4"
hmac = "0.12"
log = "0.4"
reqwest = { version = "0.13", default-features = false, features = ["json"] }
ruint = "=1.21.1"
serde = { version = "1", features = ["derive"] }
serde_json = "1"
serde_urlencoded = "0.7"
serde_yaml = "0.9"
sha2 = "0.10"
tokio = { version = "1", features = ["macros", "rt-multi-thread", "time"] }
