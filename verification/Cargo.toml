[package]
name = "sandbox_version_manager"
version = "0.1.0"
edition = "2021"
publish = false

[dependencies]
clap = { version = "4", features = ["derive"] }
dirs = "5"
flate2 = "1"
reqwest = { version = "0.11", default-features = false, features = ["blocking", "rustls-tls"] }
tar = "0.4"
