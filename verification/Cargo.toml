[package]
name = "jlink_updater"
version = "0.1.0"
edition = "2021"
publish = false

[dependencies]
clap = { version = "4", features = ["derive"] }
glob = "0.3"
indicatif = "0.17"
libloading = "0.8"
reqwest = { version = "0.12", features = ["blocking"] }
scraper = "*"

[dev-dependencies]
regex = "1"
