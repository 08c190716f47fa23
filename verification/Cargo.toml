[package]
name = "markerml"
version = "0.1.0"
edition = "2021"
publish = false

[dependencies]
anyhow = "1"
arc-swap = "1"
async-channel = "2"
axum = { version = "0.7", features = ["ws"] }
build_html = "2"
clap = { version = "4", features = ["derive"] }
miette = { version = "7", features = ["fancy"] }
notify = "6"
serde = { version = "1", features = ["derive"] }
serde_json = "1"
thiserror = "1"
tokio = { version = "1", features = ["full"] }
unicode-xid = "0.2"
