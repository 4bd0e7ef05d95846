[package]
name = "wasmforge"
version = "0.1.0"
edition = "2021"
publish = false

[dependencies]
anyhow = "*"
clap = { version = "*", features = ["derive"] }
dirs = "*"
md5 = "=0.8.1"
reqwest = { version = "*", default-features = false }
serde = { version = "=1.0.229", features = ["derive"] }
serde_json = "=1.0.151"
sha2 = "=0.11.0"
tokio = { version = "=1.53.2", features = ["full"] }
toml = "*"
uuid = { version = "=1.27.0", features = ["v4"] }
wasmtime = "=48.0.5"
