[package]
name = "phelper-core"
version = "0.1.0"
edition = "2021"
publish = false

[dependencies]
anyhow = "1"
clap = { version = "=4.6.7", features = ["derive"] }
ctrlc = "=3.5.2"
serde = { version = "1", features = ["derive"] }
serde_json = "1"
toml = "=0.8.23"
tracing = "0.1"
tracing-subscriber = { version = "=0.3.23", features = ["env-filter"] }
windows = { version = "0.58", features = ["Win32_Foundation", "Win32_Security", "Win32_System_LibraryLoader", "Win32_System_Threading"] }
wmi = "=0.18.4"
