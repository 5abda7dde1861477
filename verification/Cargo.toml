[package]
name = "minion"
version = "0.1.0"
edition = "2021"
publish = false

[dependencies]
async-openai = "0.28"
backoff = { version = "=0.4.0", features = ["tokio"] }
base64 = "=0.22.1"
bollard = "0.18"
envy = "=0.4.2"
futures-util = "=0.3.34"
git2 = "=0.21.0"
image = { version = "=0.24.9", default-features = false, features = ["webp"] }
log = "=0.4.34"
rand = "=0.8.8"
serde = { version = "=1.0.229", features = ["derive"] }
serde_json = "=1.0.154"
tar = "=0.4.46"
thiserror = "=1.0.69"
tokio = { version = "=1.54.1", features = ["macros", "rt-multi-thread"] }
url = { version = "=2.5.8", features = ["serde"] }

[dev-dependencies]
regex = "=1.13.1"
