[package]
name = "nebu_cache"
version = "0.1.0"
edition = "2021"
publish = false

[dependencies]
twox-hash = "=2.1.5"
git2 = { version = "=0.21.0", features = ["cred", "https", "ssh"] }
home = "=0.5.12"
clap = { version = "=4.6.7", features = ["derive", "env", "cargo"] }
clap-cargo = "=0.19.0"
owo-colors = "=4.4.0"
serde = { version = "=1.0.229", features = ["derive"] }
serde_json = "=1.0.154"
tempfile = "=3.27.0"
thiserror = "=2.0.21"
anyhow = "=1.0.104"
miette = { version = "=7.6.0", features = ["fancy"] }
tokio = { version = "=1.54.1", features = ["macros", "rt-multi-thread"] }
tracing = "=0.1.44"
tracing-subscriber = { version = "=0.3.23", features = ["env-filter"] }
