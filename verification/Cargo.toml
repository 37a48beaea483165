[package]
name = "smarthome_cli"
version = "0.1.0"
edition = "2021"
publish = false

[dependencies]
smarthome-sdk-rs = "*"
clap = { version = "*", features = ["derive"] }
tokio = { version = "*", features = ["macros", "rt-multi-thread"] }
rustyline = "*"
rustyline-derive = "*"
tabled = "*"
toml = "*"
serde = { version = "*", features = ["derive"] }
log = "*"
loggerv = "*"
anyhow = "*"
chrono = "*"
reqwest = { version = "*", default-features = false }
