[package]
name = "powerelk"
version = "0.1.0"
edition = "2021"
publish = false

[dependencies]
sled = "0.34"
serde_json = "1"
chrono = "0.4"
serde = "1"
serde_derive = "1"
toml = "0.5"
tokio = { version = "0.2", features = ["macros", "fs", "rt-threaded"] }
hyper = "0.13"
bytes = "0.5"
reqwest = { version = "0.10", default-features = false, features = ["json"] }
pretty_env_logger = "0.4"
