[package]
name = "scribe"
version = "0.1.0"
edition = "2021"
publish = false

[dependencies]
jotdown = "*"
serde = { version = "*", features = ["derive"] }
serde_yaml_ng = "*"
thiserror = "*"
anyhow = "*"
clap = { version = "*", features = ["derive"] }
clap-stdin = "*"
chrono = "*"
tera = { version = "*", default-features = false }
toml = "*"
glob = "*"
tracing = "*"
tracing-subscriber = "*"
notify = "*"
axum = "*"
tokio = { version = "*", features = ["full"] }
tower-http = { version = "*", features = ["fs"] }
tempfile = "*"
