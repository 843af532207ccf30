[package]
name = "wacraft_reminders"
version = "0.1.0"
edition = "2021"
publish = false

[dependencies]
anyhow = "=1.0.104"
chrono = { version = "=0.4.45", features = ["serde"] }
clap = { version = "=4.6.7", features = ["derive"] }
dirs = "=7.0.0"
env_logger = "=0.11.11"
lettre = { version = "=0.11.23", default-features = false, features = ["smtp-transport", "builder", "rustls-tls"] }
log = "*"
nix = { version = "=0.31.3", features = ["signal"] }
reqwest = { version = "=0.13.5", default-features = false, features = ["json", "query"] }
serde = { version = "*", features = ["derive"] }
serde_json = "=1.0.151"
simple-logging = "=2.0.2"
tokio = { version = "=1.53.2", features = ["macros", "rt-multi-thread", "time", "sync"] }
