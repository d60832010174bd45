[package]
name = "tinysonic"
version = "0.1.0"
edition = "2021"
publish = false

[dependencies]
bytes = "1"
symphonia = "0.5"
md5 = "0.7"
rand = "0.8"
url = "2"
tokio = { version = "1", features = ["rt-multi-thread", "macros", "sync"] }
reqwest = { version = "0.11", default-features = false, features = ["json"] }
serde = { version = "1", features = ["derive"] }
thiserror = "1"
toml = "0.5"
dirs = "4"
tracing = "0.1"
tracing-subscriber = "0.3"
rodio = { version = "0.17", default-features = false }
