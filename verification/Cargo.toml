[package]
name = "activitytracker"
version = "0.1.0"
edition = "2021"
publish = false

[dependencies]
actix-files = "0.6"
actix-web = { version = "4", features = ["openssl"] }
chrono = "0.4"
clap = "4"
env_logger = "0.10"
log = "0.4"
openssl = "0.10"
serde = { version = "1", features = ["derive"] }
serde_json = "1"
