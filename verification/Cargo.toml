[package]
name = "tor_bundle"
version = "0.1.0"
edition = "2021"
publish = false

[dependencies]
anyhow = "*"
dirs = "*"
flate2 = "*"
nix = { version = "*", features = ["signal"] }
reqwest = { version = "*", default-features = false }
tar = "*"
tokio = { version = "*", features = ["process", "io-util", "rt"] }
