[package]
name = "moz_wgpu_update"
version = "0.1.0"
edition = "2021"
publish = false

[dependencies]
anyhow = "=1.0.104"
cargo_toml = "=1.0.1"
clap = { version = "=4.6.7", features = ["derive"] }
dirs = "=7.0.0"
octocrab = "=0.47.1"
serde = { version = "=1.0.229", features = ["derive"] }
serde_json = "=1.0.151"
tokio = { version = "=1.53.2", features = ["rt", "time", "net"] }
toml = "=1.1.7"
toml_edit = "=0.19.15"
