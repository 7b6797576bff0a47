[package]
name = "ken"
version = "0.1.0"
edition = "2021"
publish = false

[dependencies]
anyhow = "1"
chrono = "0.4"
clap = { version = "4", features = ["derive"] }
dirs = "*"
mcp-core = "*"
reqwest = { version = "*", features = ["json"] }
rig-core = "*"
rpassword = "*"
rustyline = "*"
schemars = "*"
serde = { version = "1", features = ["derive"] }
serde_json = "1"
thiserror = "1"
tokio = { version = "1", features = ["full"] }
toml = "*"
tracing = "*"
urlencoding = "2"
