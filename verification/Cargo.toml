[package]
name = "gants"
version = "0.1.0"
edition = "2021"
publish = false

[dependencies]
cacache = "*"
chrono = "*"
dirs = "*"
rand = "*"
reqwest = { version = "*", default-features = false, features = ["deflate"] }
tokio = { version = "*", features = ["macros", "rt-multi-thread"] }
