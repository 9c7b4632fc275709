[package]
name = "proxy_updater"
version = "0.1.0"
edition = "2021"
publish = false

[dependencies]
regex = "1"
semver = "1"
serde = { version = "1", features = ["derive"] }
reqwest = { version = "0.11", features = ["json", "stream"] }
futures-util = "0.3"
indicatif = "0.17"
tokio = { version = "1", features = ["macros", "rt-multi-thread"] }
clap = { version = "4", features = ["derive"] }
chrono = "0.4"
zip = { version = "0.6", default-features = false, features = ["deflate"] }
