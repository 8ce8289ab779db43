[package]
name = "aide_rs"
version = "0.1.0"
edition = "2021"
publish = false

[dependencies]
globset = "0.4"
serde_json = "1.0"
toml = "0.8"
serde = { version = "1.0", features = ["derive"] }
serde_yaml = "0.9"
clap = { version = "4.5", features = ["derive"] }
tokio = { version = "1.38", features = ["full"] }
reqwest = { version = "0.12", default-features = false, features = ["json", "rustls-tls"] }
dotenvy = "0.15"
git2 = { version = "0.18", default-features = false }
ignore = "0.4"
chrono = "0.4"
rustdoc-json = "*"
rustdoc-types = "*"
thiserror = "1.0"
tracing = "0.1"
tracing-subscriber = { version = "0.3", features = ["env-filter"] }
async-trait = "0.1"
