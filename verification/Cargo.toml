[package]
name = "stream_recorder"
version = "0.1.0"
edition = "2021"
publish = false

[dependencies]
regex = "1"
semver = "1"
serde = { version = "1", features = ["derive"] }
serde_json = "1"
toml = "0.8"
handlebars = "6"
anyhow = "1"
tokio = { version = "1", features = ["rt-multi-thread", "macros", "process", "fs", "time", "signal", "io-util", "sync"] }
reqwest = { version = "0.12", default-features = false, features = ["json", "multipart", "stream"] }
clap = { version = "4", features = ["derive"] }
dirs = "5"
keyring = "3"
chrono = "0.4"
tempfile = "3"
walkdir = "2"
fs2 = "0.4"
tiny-table = "*"
colored = "2"
async-trait = "0.1"
tokio-util = { version = "0.7", features = ["io"] }
scopeguard = "1"
