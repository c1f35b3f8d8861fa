[package]
name = "bb_chipotle"
version = "0.1.0"
edition = "2021"
publish = false

[dependencies]
regex = "*"
reqwest = { version = "*", default-features = false, features = ["gzip", "brotli"] }
tokio = { version = "*", features = ["rt-multi-thread", "macros", "time", "fs"] }
serde = { version = "*", features = ["derive"] }
serde_json = "*"
clap = { version = "*", features = ["derive"] }
anyhow = "*"
futures = "*"
indicatif = "*"
tokio-stream = "*"
thiserror = "*"
